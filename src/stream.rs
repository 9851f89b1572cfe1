use vstd::prelude::*;

use crate::hub::{recv_spec, Hub, HubView, Recv, RecvView, Subscription};
use crate::message::{Message, MessageView};
use crate::shutdown::Shutdown;

verus! {

/// The mathematical state of a subscriber stream.
pub struct StreamView {
    /// Where its subscription reads next.
    pub cursor: nat,
    /// Whether it has ended; an ended stream never emits again.
    pub terminated: bool,
}

/// The mathematical form of what one wake-up of a stream produces.
pub enum EventView {
    Emit(MessageView),
    Idle,
    Ended,
}

/// One wake-up of stream `s` against hub state `h`, with the shutdown signal
/// in state `fired`. An ended stream stays ended. Shutdown wins over a message
/// that is ready. Otherwise the subscription is read: a message is emitted; a
/// lag is skipped silently and the oldest held message is emitted instead; at
/// the tail the stream waits; a closed hub ends it.
pub open spec fn poll_spec(s: StreamView, h: HubView, fired: bool) -> (StreamView, EventView) {
    if s.terminated {
        (s, EventView::Ended)
    } else if fired {
        (StreamView { terminated: true, ..s }, EventView::Ended)
    } else {
        match recv_spec(h, s.cursor).0 {
            RecvView::Message(m) => (StreamView { cursor: s.cursor + 1, ..s }, EventView::Emit(m)),
            RecvView::Lagged(_) => (
                StreamView { cursor: h.oldest() + 1, ..s },
                EventView::Emit(h.log[h.oldest() as int]),
            ),
            RecvView::Empty => (s, EventView::Idle),
            RecvView::Closed => (StreamView { terminated: true, ..s }, EventView::Ended),
        }
    }
}

/// What a stream does on one wake-up.
#[derive(Debug)]
pub enum StreamEvent {
    /// Push this message to the client.
    Emit(Message),
    /// Nothing to send: wait for the next publish or for shutdown.
    Idle,
    /// The stream is over: close the transport and call `finish`.
    Ended,
}

impl View for StreamEvent {
    type V = EventView;

    open spec fn view(&self) -> EventView {
        match self {
            StreamEvent::Emit(m) => EventView::Emit(m@),
            StreamEvent::Idle => EventView::Idle,
            StreamEvent::Ended => EventView::Ended,
        }
    }
}

/// One connected client's push stream: its subscription and whether it has
/// ended.
#[derive(Debug)]
pub struct SubscriberStream {
    sub: Subscription,
    terminated: bool,
}

impl View for SubscriberStream {
    type V = StreamView;

    closed spec fn view(&self) -> StreamView {
        StreamView { cursor: self.sub@, terminated: self.terminated }
    }
}

impl SubscriberStream {
    /// Opens a stream on a fresh subscription at the hub's tail.
    pub fn open(hub: &mut Hub) -> (s: SubscriberStream)
        requires
            old(hub).wf(),
            old(hub)@.subscribers < usize::MAX,
        ensures
            final(hub).wf(),
            final(hub)@ == (HubView { subscribers: old(hub)@.subscribers + 1, ..old(hub)@ }),
            s@ == (StreamView { cursor: old(hub)@.next_seq(), terminated: false }),
    {
        let sub = hub.subscribe();
        SubscriberStream { sub, terminated: false }
    }

    pub fn is_terminated(&self) -> (r: bool)
        ensures
            r == self@.terminated,
    {
        self.terminated
    }

    /// Handles one wake-up: see `poll_spec`.
    pub fn poll(&mut self, hub: &Hub, shutdown: &Shutdown) -> (e: StreamEvent)
        requires
            hub.wf(),
        ensures
            (final(self)@, e@) == poll_spec(old(self)@, hub@, shutdown@),
    {
        if self.terminated {
            return StreamEvent::Ended;
        }
        if shutdown.is_fired() {
            self.terminated = true;
            return StreamEvent::Ended;
        }
        proof {
            hub.lemma_capacity_positive();
        }
        match self.sub.try_recv(hub) {
            Recv::Message(m) => StreamEvent::Emit(m),
            Recv::Lagged(_) => {
                // The cursor now stands at the oldest held message, which
                // comes next.
                match self.sub.try_recv(hub) {
                    Recv::Message(m) => StreamEvent::Emit(m),
                    _ => {
                        proof {
                            assert(false);
                        }
                        StreamEvent::Idle
                    },
                }
            },
            Recv::Empty => StreamEvent::Idle,
            Recv::Closed => {
                self.terminated = true;
                StreamEvent::Ended
            },
        }
    }

    /// Ends the stream and hands its subscription back to the hub.
    pub fn finish(self, hub: &mut Hub)
        requires
            old(hub).wf(),
        ensures
            final(hub).wf(),
            final(hub)@ == (HubView {
                subscribers: if old(hub)@.subscribers > 0 {
                    (old(hub)@.subscribers - 1) as nat
                } else {
                    0
                },
                ..old(hub)@
            }),
    {
        hub.unsubscribe(self.sub);
    }
}

} // verus!
