use vstd::prelude::*;

use crate::hub::{publish_spec, recv_spec, HubView, RecvView};
use crate::message::MessageView;
use crate::stream::{poll_spec, EventView, StreamView};

verus! {

/// The hub after `ms` are published one after another.
pub open spec fn publish_all(h: HubView, ms: Seq<MessageView>) -> HubView
    decreases ms.len(),
{
    if ms.len() == 0 {
        h
    } else {
        publish_spec(publish_all(h, ms.drop_last()), ms.last())
    }
}

/// What `n` receives in a row return, starting from `cursor`, while the hub
/// stays in state `h`.
pub open spec fn recv_many(h: HubView, cursor: nat, n: nat) -> Seq<RecvView>
    decreases n,
{
    if n == 0 {
        Seq::empty()
    } else {
        seq![recv_spec(h, cursor).0] + recv_many(h, recv_spec(h, cursor).1, (n - 1) as nat)
    }
}

/// The hub once one more subscriber has joined.
pub open spec fn joined(h: HubView) -> HubView {
    HubView { subscribers: h.subscribers + 1, ..h }
}

proof fn lemma_recv_many_len(h: HubView, c: nat, n: nat)
    ensures
        recv_many(h, c, n).len() == n,
    decreases n,
{
    if n > 0 {
        lemma_recv_many_len(h, recv_spec(h, c).1, (n - 1) as nat);
    }
}

proof fn lemma_publish_all_open(h: HubView, ms: Seq<MessageView>)
    requires
        !h.closed,
        h.subscribers > 0,
    ensures
        publish_all(h, ms) == (HubView { log: h.log + ms, ..h }),
    decreases ms.len(),
{
    if ms.len() > 0 {
        lemma_publish_all_open(h, ms.drop_last());
        assert((h.log + ms.drop_last()).push(ms.last()) =~= h.log + ms);
    } else {
        assert(h.log + ms =~= h.log);
    }
}

proof fn lemma_publish_all_closed(h: HubView, ms: Seq<MessageView>)
    requires
        h.closed,
    ensures
        publish_all(h, ms) == h,
    decreases ms.len(),
{
    if ms.len() > 0 {
        lemma_publish_all_closed(h, ms.drop_last());
    }
}

proof fn lemma_read_window(h: HubView, c: nat, n: nat)
    requires
        h.oldest() <= c,
        c + n <= h.next_seq(),
    ensures
        recv_many(h, c, n) == h.log.subrange(c as int, (c + n) as int).map_values(
            |m: MessageView| RecvView::Message(m),
        ),
    decreases n,
{
    if n > 0 {
        lemma_read_window(h, c + 1, (n - 1) as nat);
        assert(recv_many(h, c, n) =~= h.log.subrange(c as int, (c + n) as int).map_values(
            |m: MessageView| RecvView::Message(m),
        ));
    } else {
        assert(recv_many(h, c, n) =~= h.log.subrange(c as int, (c + n) as int).map_values(
            |m: MessageView| RecvView::Message(m),
        ));
    }
}

proof fn lemma_reads_from_cursor_on(h: HubView, c: nat, n: nat, k: int)
    requires
        0 <= k < n,
        recv_many(h, c, n)[k] is Message,
    ensures
        exists|i: int|
            c <= i < h.next_seq() && recv_many(h, c, n)[k]->Message_0 == #[trigger] h.log[i],
    decreases n,
{
    let next = recv_spec(h, c).1;
    lemma_recv_many_len(h, next, (n - 1) as nat);
    assert(recv_many(h, c, n)[k] == if k == 0 {
        recv_spec(h, c).0
    } else {
        recv_many(h, next, (n - 1) as nat)[k - 1]
    });
    if k == 0 {
        assert(c <= c < h.next_seq() && recv_many(h, c, n)[k]->Message_0 == h.log[c as int]);
    } else {
        lemma_reads_from_cursor_on(h, next, (n - 1) as nat, k - 1);
        let i = choose|i: int|
            next <= i < h.next_seq() && recv_many(h, next, (n - 1) as nat)[k - 1]->Message_0
                == #[trigger] h.log[i];
        assert(c <= i < h.next_seq() && recv_many(h, c, n)[k]->Message_0 == h.log[i]);
    }
}

/// A subscriber that joins an open hub, and reads after at most `capacity`
/// further publishes, receives exactly those messages, in publish order, and
/// then finds nothing more.
pub proof fn law_in_order_delivery(h: HubView, ms: Seq<MessageView>)
    requires
        h.capacity > 0,
        !h.closed,
        ms.len() <= h.capacity,
    ensures
        recv_many(publish_all(joined(h), ms), h.next_seq(), ms.len()) == ms.map_values(
            |m: MessageView| RecvView::Message(m),
        ),
        recv_spec(publish_all(joined(h), ms), h.next_seq() + ms.len()).0 == RecvView::Empty,
{
    let after = publish_all(joined(h), ms);
    lemma_publish_all_open(joined(h), ms);
    lemma_read_window(after, h.next_seq(), ms.len());
    assert(after.log.subrange(h.next_seq() as int, (h.next_seq() + ms.len()) as int) =~= ms);
}

/// A subscriber never receives what was published before it joined: in any
/// number of receives, each message it gets is one of those published after.
pub proof fn law_no_history(h: HubView, ms: Seq<MessageView>, n: nat, k: int)
    requires
        0 <= k < n,
        recv_many(publish_all(joined(h), ms), h.next_seq(), n)[k] is Message,
    ensures
        exists|i: int|
            0 <= i < ms.len() && recv_many(publish_all(joined(h), ms), h.next_seq(), n)[k]->Message_0
                == #[trigger] ms[i],
{
    let after = publish_all(joined(h), ms);
    let c = h.next_seq();
    if h.closed {
        lemma_publish_all_closed(joined(h), ms);
    } else {
        lemma_publish_all_open(joined(h), ms);
    }
    lemma_reads_from_cursor_on(after, c, n, k);
    let j = choose|j: int|
        c <= j < after.next_seq() && recv_many(after, c, n)[k]->Message_0 == #[trigger] after.log[j];
    assert(after.log[j] == ms[j - c]);
}

/// A subscriber that stops reading while more than `capacity` messages are
/// published first learns how many it missed, then receives the oldest message
/// still held: the `capacity`-th last of them.
pub proof fn law_lag_then_oldest(h: HubView, ms: Seq<MessageView>)
    requires
        h.capacity > 0,
        !h.closed,
        ms.len() > h.capacity,
    ensures
        recv_many(publish_all(joined(h), ms), h.next_seq(), 2) == seq![
            RecvView::Lagged((ms.len() - h.capacity) as nat),
            RecvView::Message(ms[ms.len() - h.capacity]),
        ],
{
    let after = publish_all(joined(h), ms);
    lemma_publish_all_open(joined(h), ms);
    reveal_with_fuel(recv_many, 3);
    assert(recv_many(after, h.next_seq(), 2) =~= seq![
        RecvView::Lagged((ms.len() - h.capacity) as nat),
        RecvView::Message(ms[ms.len() - h.capacity]),
    ]);
}

/// A receive only moves its cursor forward: a message handed out is the one at
/// the cursor, which then steps past it, and a lag only skips ahead. So no
/// message comes twice or out of publish order.
pub proof fn law_cursor_only_advances(h: HubView, c: nat)
    ensures
        recv_spec(h, c).1 >= c,
        recv_spec(h, c).0 is Message ==> recv_spec(h, c).1 == c + 1 && recv_spec(h, c).0->Message_0
            == h.log[c as int],
        recv_spec(h, c).0 is Lagged ==> recv_spec(h, c).1 == h.oldest() > c,
{
}

/// Publishing with nobody subscribed leaves the hub exactly as it was.
pub proof fn law_unheard_publish(h: HubView, m: MessageView)
    requires
        h.subscribers == 0,
    ensures
        publish_spec(h, m) == h,
{
}

/// Once shutdown has fired, every open stream ends on its next wake-up,
/// however much the hub holds, and an ended stream never emits again.
pub proof fn law_shutdown_ends_all(streams: Seq<StreamView>, h: HubView)
    ensures
        forall|i: int|
            0 <= i < streams.len() ==> #[trigger] poll_spec(streams[i], h, true) == (
            StreamView { terminated: true, ..streams[i] },
            EventView::Ended,
        ),
        forall|s: StreamView, later: HubView, fired: bool|
            s.terminated ==> #[trigger] poll_spec(s, later, fired) == (s, EventView::Ended),
{
}

} // verus!
