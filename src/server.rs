use vstd::prelude::*;

use crate::hub::{publish_spec, Hub, HubView, DEFAULT_CAPACITY};
use crate::message::{validate_spec, Message, ValidationError};

verus! {

/// The server's shared state at launch: an empty hub of the default capacity.
pub fn rocket() -> (h: Hub)
    ensures
        h.wf(),
        h@ == (HubView {
            log: Seq::empty(),
            capacity: DEFAULT_CAPACITY as nat,
            subscribers: 0,
            closed: false,
        }),
{
    Hub::new(DEFAULT_CAPACITY)
}

/// The publish endpoint: validates the three form fields and, when they pass,
/// publishes one message. Whether anyone listens, or the hub still runs, does
/// not change the answer; a field over its bound is refused and nothing is
/// published.
pub fn post(hub: &mut Hub, room: String, username: String, message: String) -> (r: Result<
    (),
    ValidationError,
>)
    requires
        old(hub).wf(),
        old(hub)@.next_seq() < usize::MAX,
    ensures
        final(hub).wf(),
        match validate_spec(room@, username@, message@) {
            Ok(v) => r is Ok && final(hub)@ == publish_spec(old(hub)@, v),
            Err(e) => r == Err::<(), ValidationError>(e) && final(hub)@ == old(hub)@,
        },
{
    match Message::new(room, username, message) {
        Ok(msg) => {
            let _reached = hub.publish(msg);
            Ok(())
        },
        Err(e) => Err(e),
    }
}

} // verus!
