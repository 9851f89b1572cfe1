use vstd::prelude::*;

verus! {

/// Longest accepted `room`, in characters.
pub const ROOM_MAX_CHARS: usize = 30;

/// Longest accepted `username`, in characters.
pub const USERNAME_MAX_CHARS: usize = 20;

/// Why a publish request was turned away before reaching the hub.
#[derive(Debug, Clone, Copy, PartialEq, Eq, Structural)]
pub enum ValidationError {
    /// `room` has more than `ROOM_MAX_CHARS` characters.
    RoomTooLong,
    /// `username` has more than `USERNAME_MAX_CHARS` characters.
    UsernameTooLong,
}

/// The mathematical content of a message: its three fields as characters.
pub struct MessageView {
    pub room: Seq<char>,
    pub username: Seq<char>,
    pub body: Seq<char>,
}

impl MessageView {
    /// Both bounded fields are within their limits.
    pub open spec fn within_bounds(self) -> bool {
        self.room.len() <= ROOM_MAX_CHARS && self.username.len() <= USERNAME_MAX_CHARS
    }
}

/// What validating the three raw fields gives: the first bound that is broken,
/// `room` before `username`, or the message.
pub open spec fn validate_spec(room: Seq<char>, username: Seq<char>, body: Seq<char>) -> Result<
    MessageView,
    ValidationError,
> {
    if room.len() > ROOM_MAX_CHARS {
        Err(ValidationError::RoomTooLong)
    } else if username.len() > USERNAME_MAX_CHARS {
        Err(ValidationError::UsernameTooLong)
    } else {
        Ok(MessageView { room, username, body })
    }
}

/// An immutable chat message. Only `Message::new` builds one, so `room` and
/// `username` are always within their bounds.
#[derive(Debug)]
pub struct Message {
    room: String,
    username: String,
    message: String,
}

impl View for Message {
    type V = MessageView;

    closed spec fn view(&self) -> MessageView {
        MessageView { room: self.room@, username: self.username@, body: self.message@ }
    }
}

impl Message {
    #[verifier::type_invariant]
    pub open spec fn bounded(self) -> bool {
        self@.within_bounds()
    }

    /// Validates the raw fields and builds the message.
    pub fn new(room: String, username: String, message: String) -> (r: Result<
        Message,
        ValidationError,
    >)
        ensures
            match (r, validate_spec(room@, username@, message@)) {
                (Ok(m), Ok(v)) => m@ == v,
                (Err(e), Err(f)) => e == f,
                _ => false,
            },
    {
        if room.as_str().unicode_len() > ROOM_MAX_CHARS {
            return Err(ValidationError::RoomTooLong);
        }
        if username.as_str().unicode_len() > USERNAME_MAX_CHARS {
            return Err(ValidationError::UsernameTooLong);
        }
        Ok(Message { room, username, message })
    }

    pub fn room(&self) -> (r: &str)
        ensures
            r@ == self@.room,
    {
        self.room.as_str()
    }

    pub fn username(&self) -> (r: &str)
        ensures
            r@ == self@.username,
    {
        self.username.as_str()
    }

    /// The free-form payload (the `message` field).
    pub fn body(&self) -> (r: &str)
        ensures
            r@ == self@.body,
    {
        self.message.as_str()
    }
}

impl Clone for Message {
    fn clone(&self) -> (r: Message)
        ensures
            r@ == self@,
    {
        proof {
            use_type_invariant(self);
        }
        Message {
            room: self.room.clone(),
            username: self.username.clone(),
            message: self.message.clone(),
        }
    }
}

} // verus!
