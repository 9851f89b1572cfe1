use vstd::prelude::*;

use crate::message::{Message, MessageView};

verus! {

/// Capacity of the hub that the server runs with.
pub const DEFAULT_CAPACITY: usize = 1024;

/// The mathematical state of a hub.
pub struct HubView {
    /// Every message stored so far, in publish order; a message's position
    /// here is its sequence number.
    pub log: Seq<MessageView>,
    /// How many of the latest messages stay readable.
    pub capacity: nat,
    /// How many subscription handles are live.
    pub subscribers: nat,
    /// Whether the hub has been torn down.
    pub closed: bool,
}

impl HubView {
    /// The sequence number that the next stored message gets.
    pub open spec fn next_seq(self) -> nat {
        self.log.len()
    }

    /// The sequence number of the oldest message still held.
    pub open spec fn oldest(self) -> nat {
        if self.log.len() > self.capacity {
            (self.log.len() - self.capacity) as nat
        } else {
            0
        }
    }
}

/// The mathematical outcome of one receive.
pub enum RecvView {
    Message(MessageView),
    Lagged(nat),
    Empty,
    Closed,
}

/// One receive on a hub in state `h` by a cursor at `cursor`: the outcome and
/// the cursor afterwards. A cursor behind the oldest held message is moved up
/// to it and reports how many messages it missed; otherwise the message at
/// the cursor is handed out and the cursor advances; at the tail nothing is
/// read, and a torn-down hub reports that it is closed.
pub open spec fn recv_spec(h: HubView, cursor: nat) -> (RecvView, nat) {
    if cursor < h.oldest() {
        (RecvView::Lagged((h.oldest() - cursor) as nat), h.oldest())
    } else if cursor < h.next_seq() {
        (RecvView::Message(h.log[cursor as int]), cursor + 1)
    } else if h.closed {
        (RecvView::Closed, cursor)
    } else {
        (RecvView::Empty, cursor)
    }
}

/// The hub after `m` is offered to it: appended to the log when the hub is open
/// and someone listens, otherwise dropped without a trace.
pub open spec fn publish_spec(h: HubView, m: MessageView) -> HubView {
    if h.closed || h.subscribers == 0 {
        h
    } else {
        HubView { log: h.log.push(m), ..h }
    }
}

/// What a receive hands back.
#[derive(Debug)]
pub enum Recv {
    /// The next message for this cursor.
    Message(Message),
    /// The cursor fell behind and skipped this many overwritten messages; it
    /// now stands at the oldest message still held.
    Lagged(usize),
    /// Nothing new yet: a waiting receiver suspends here.
    Empty,
    /// The hub is torn down and every stored message was read.
    Closed,
}

impl View for Recv {
    type V = RecvView;

    open spec fn view(&self) -> RecvView {
        match self {
            Recv::Message(m) => RecvView::Message(m@),
            Recv::Lagged(n) => RecvView::Lagged(*n as nat),
            Recv::Empty => RecvView::Empty,
            Recv::Closed => RecvView::Closed,
        }
    }
}

/// Why a publish was refused.
#[derive(Debug, Clone, Copy, PartialEq, Eq, Structural)]
pub enum PublishError {
    /// The hub has been torn down.
    HubClosed,
}

/// One subscriber's read position in the hub's sequence.
#[derive(Debug)]
pub struct Subscription {
    cursor: usize,
}

impl View for Subscription {
    type V = nat;

    closed spec fn view(&self) -> nat {
        self.cursor as nat
    }
}

/// A bounded broadcast buffer: the latest `capacity` messages sit in a ring of
/// slots, message `s` in slot `s % capacity`, and each subscription keeps its
/// own cursor into the shared sequence.
pub struct Hub {
    slots: Vec<Message>,
    capacity: usize,
    next: usize,
    subscribers: usize,
    closed: bool,
    log: Ghost<Seq<MessageView>>,
}

impl View for Hub {
    type V = HubView;

    closed spec fn view(&self) -> HubView {
        HubView {
            log: self.log@,
            capacity: self.capacity as nat,
            subscribers: self.subscribers as nat,
            closed: self.closed,
        }
    }
}

impl Subscription {
    /// The sequence number this subscription reads next.
    pub fn cursor(&self) -> (r: usize)
        ensures
            r == self@,
    {
        self.cursor
    }

    /// One non-blocking receive: see `recv_spec`. `Empty` is where an
    /// asynchronous receiver suspends until the next publish.
    pub fn try_recv(&mut self, hub: &Hub) -> (r: Recv)
        requires
            hub.wf(),
        ensures
            (r@, final(self)@) == recv_spec(hub@, old(self)@),
    {
        let oldest = hub.oldest_seq();
        if self.cursor < oldest {
            let skipped = oldest - self.cursor;
            self.cursor = oldest;
            Recv::Lagged(skipped)
        } else if self.cursor < hub.next {
            proof {
                let c = self.cursor as int;
                let cap = hub.capacity as int;
                if hub.next < hub.capacity {
                    lemma_small_mod(c, cap);
                } else {
                    vstd::arithmetic::div_mod::lemma_mod_bound(c, cap);
                }
                assert(hub.log@[c] == hub.slots@[c % cap]@);
            }
            let m = hub.slots[self.cursor % hub.capacity].clone();
            self.cursor = self.cursor + 1;
            Recv::Message(m)
        } else if hub.closed {
            Recv::Closed
        } else {
            Recv::Empty
        }
    }
}

proof fn lemma_small_mod(s: int, cap: int)
    requires
        0 <= s < cap,
    ensures
        s % cap == s,
{
    vstd::arithmetic::div_mod::lemma_small_mod(s as nat, cap as nat);
}

proof fn lemma_distinct_slots(a: int, b: int, cap: int)
    requires
        0 <= a < b,
        b - a < cap,
    ensures
        a % cap != b % cap,
{
    vstd::arithmetic::div_mod::lemma_fundamental_div_mod(a, cap);
    vstd::arithmetic::div_mod::lemma_fundamental_div_mod(b, cap);
    let qa = a / cap;
    let qb = b / cap;
    if a % cap == b % cap {
        assert(b - a == cap * (qb - qa)) by (nonlinear_arith)
            requires
                a == cap * qa + a % cap,
                b == cap * qb + b % cap,
                a % cap == b % cap,
        ;
        assert(false) by (nonlinear_arith)
            requires
                b - a == cap * (qb - qa),
                0 < b - a < cap,
        ;
    }
}

impl Hub {
    /// The ring holds exactly the latest `min(next, capacity)` messages of
    /// the log, each in its slot, and every logged message is within bounds.
    pub closed spec fn wf(&self) -> bool {
        &&& self.capacity > 0
        &&& self.next == self.log@.len()
        &&& self.slots@.len() == if self.next < self.capacity {
            self.next
        } else {
            self.capacity
        }
        &&& forall|s: int|
            self@.oldest() <= s < self.next ==> #[trigger] self.log@[s] == self.slots@[s
                % (self.capacity as int)]@
        &&& forall|i: int| 0 <= i < self.log@.len() ==> (#[trigger] self.log@[i]).within_bounds()
    }

    /// A well-formed hub keeps at least one message.
    pub proof fn lemma_capacity_positive(&self)
        requires
            self.wf(),
        ensures
            self@.capacity > 0,
    {
    }

    /// An empty, open hub that keeps the latest `capacity` messages.
    pub fn new(capacity: usize) -> (h: Hub)
        requires
            capacity > 0,
        ensures
            h.wf(),
            h@ == (HubView {
                log: Seq::empty(),
                capacity: capacity as nat,
                subscribers: 0,
                closed: false,
            }),
    {
        Hub {
            slots: Vec::new(),
            capacity,
            next: 0,
            subscribers: 0,
            closed: false,
            log: Ghost(Seq::empty()),
        }
    }

    pub fn capacity(&self) -> (r: usize)
        ensures
            r == self@.capacity,
    {
        self.capacity
    }

    /// The sequence number that the next stored message gets.
    pub fn next_seq(&self) -> (r: usize)
        requires
            self.wf(),
        ensures
            r == self@.next_seq(),
    {
        self.next
    }

    pub fn subscriber_count(&self) -> (r: usize)
        ensures
            r == self@.subscribers,
    {
        self.subscribers
    }

    pub fn is_closed(&self) -> (r: bool)
        ensures
            r == self@.closed,
    {
        self.closed
    }

    /// The sequence number of the oldest message still held.
    pub fn oldest_seq(&self) -> (r: usize)
        requires
            self.wf(),
        ensures
            r == self@.oldest(),
    {
        if self.next > self.capacity {
            self.next - self.capacity
        } else {
            0
        }
    }
    /// Hands out a cursor at the current tail: the new subscriber sees only
    /// messages published from now on.
    pub fn subscribe(&mut self) -> (sub: Subscription)
        requires
            old(self).wf(),
            old(self)@.subscribers < usize::MAX,
        ensures
            final(self).wf(),
            sub@ == old(self)@.next_seq(),
            final(self)@ == (HubView { subscribers: old(self)@.subscribers + 1, ..old(self)@ }),
    {
        self.subscribers = self.subscribers + 1;
        Subscription { cursor: self.next }
    }

    /// Releases a subscription handle.
    pub fn unsubscribe(&mut self, sub: Subscription)
        requires
            old(self).wf(),
        ensures
            final(self).wf(),
            final(self)@ == (HubView {
                subscribers: if old(self)@.subscribers > 0 {
                    (old(self)@.subscribers - 1) as nat
                } else {
                    0
                },
                ..old(self)@
            }),
    {
        if self.subscribers > 0 {
            self.subscribers = self.subscribers - 1;
        }
    }

    /// Tears the hub down: publishing stops, and each subscriber gets
    /// `Closed` once it has read what is still held.
    pub fn close(&mut self)
        requires
            old(self).wf(),
        ensures
            final(self).wf(),
            final(self)@ == (HubView { closed: true, ..old(self)@ }),
    {
        self.closed = true;
    }

    /// Stores `msg` at the next sequence number, overwriting the oldest held
    /// message when the ring is full, and reports how many subscribers it
    /// reaches. With no subscriber the message is accepted and dropped: the
    /// hub does not change. Never blocks; fails only on a torn-down hub.
    pub fn publish(&mut self, msg: Message) -> (r: Result<usize, PublishError>)
        requires
            old(self).wf(),
            old(self)@.next_seq() < usize::MAX,
        ensures
            final(self).wf(),
            final(self)@ == publish_spec(old(self)@, msg@),
            r == if old(self)@.closed {
                Err::<usize, PublishError>(PublishError::HubClosed)
            } else {
                Ok(old(self)@.subscribers as usize)
            },
    {
        if self.closed {
            return Err(PublishError::HubClosed);
        }
        if self.subscribers == 0 {
            return Ok(0);
        }
        proof {
            use_type_invariant(&msg);
        }
        let ghost old_log = self.log@;
        let ghost cap = self.capacity as int;
        let ghost n = self.next as int;
        let ghost v = msg@;
        if self.next < self.capacity {
            self.slots.push(msg);
        } else {
            let idx = self.next % self.capacity;
            self.slots.set(idx, msg);
        }
        self.next = self.next + 1;
        self.log = Ghost(old_log.push(v));
        proof {
            assert forall|s: int| self@.oldest() <= s < self.next implies #[trigger] self.log@[s]
                == self.slots@[s % cap]@ by {
                if n < cap {
                    lemma_small_mod(s, cap);
                } else if s < n {
                    lemma_distinct_slots(s, n, cap);
                }
                if s < n {
                    assert(old_log[s] == self.log@[s]);
                }
            }
        }
        Ok(self.subscribers)
    }
}

} // verus!
