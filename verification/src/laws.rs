use vstd::prelude::*;

use crate::events::IoEvent;
use crate::model::ChannelModel;
use crate::outcome::PopOutcome;
use crate::outcome::PushOutcome;

verus! {

/// A full channel refuses a non-blocking push with `Eagain` and stays
/// unchanged; after one pop makes room, the retried push succeeds.
pub proof fn lemma_full_push_eagain_then_pop_push(m: ChannelModel, item: u8, retry: u8)
    requires
        m.wf(),
        m.capacity >= 1,
        m.buffered.len() == m.capacity,
        !m.producer_shutdown,
        !m.consumer_shutdown,
        m.producer_nonblocking,
    ensures
        m.push_tr(item) == (m, PushOutcome::Eagain),
        m.pop_tr().1 == PopOutcome::Popped(m.buffered[0]),
        m.pop_tr().0.push_tr(retry).1 == PushOutcome::Pushed,
{
}

/// Shutting a side down twice is the same as once, state-wise: the second
/// call changes no flag and no buffered byte, and still broadcasts its
/// event.
pub proof fn lemma_shutdown_idempotent(m: ChannelModel)
    ensures
        m.producer_shutdown_tr().producer_shutdown_tr() == (ChannelModel {
            producer_events: m.producer_shutdown_tr().producer_events.push(
                IoEvent::Hup,
            ),
            ..m.producer_shutdown_tr()
        }),
        m.consumer_shutdown_tr().consumer_shutdown_tr() == (ChannelModel {
            consumer_events: m.consumer_shutdown_tr().consumer_events.push(
                IoEvent::RdHup,
            ),
            ..m.consumer_shutdown_tr()
        }),
{
}

/// After the producer shuts down, a pop still drains the buffered bytes in
/// order: while anything is buffered, a pop returns the oldest byte.
pub proof fn lemma_pop_survives_producer_shutdown(m: ChannelModel)
    requires
        m.producer_shutdown,
        !m.consumer_shutdown,
        m.buffered.len() > 0,
    ensures
        m.pop_tr().1 == PopOutcome::Popped(m.buffered[0]),
        m.pop_tr().0.buffered == m.buffered.skip(1),
        m.pop_tr().0.producer_shutdown,
        !m.pop_tr().0.consumer_shutdown,
{
}

/// After the producer shuts down with nothing buffered, a pop returns the
/// clean end of stream immediately — never `Park`, whatever the mode.
pub proof fn lemma_pop_empty_after_producer_shutdown(m: ChannelModel)
    requires
        m.producer_shutdown,
        !m.consumer_shutdown,
        m.buffered.len() == 0,
    ensures
        m.pop_tr() == (m, PopOutcome::Eos),
{
}

/// A push against a shut-down consumer fails with `Epipe` and changes
/// nothing, however much free capacity remains.
pub proof fn lemma_push_epipe_after_consumer_shutdown(m: ChannelModel, item: u8)
    requires
        m.consumer_shutdown,
    ensures
        m.push_tr(item) == (m, PushOutcome::Epipe),
{
}

/// On an empty, open channel, a push followed by a pop hands the pushed
/// byte over.  (In a concurrent embedding the push's `IN` broadcast is what
/// wakes a consumer parked in the pop; the wakeup itself is the waiter
/// queue's job.)
pub proof fn lemma_push_then_pop_delivers(m: ChannelModel, item: u8)
    requires
        m.wf(),
        m.capacity >= 1,
        m.buffered.len() == 0,
        !m.producer_shutdown,
        !m.consumer_shutdown,
    ensures
        m.push_tr(item).1 == PushOutcome::Pushed,
        m.push_tr(item).0.pop_tr().1 == PopOutcome::Popped(item),
        m.push_tr(item).0.pop_tr().0.buffered.len() == 0,
{
    assert(m.buffered.push(item)[0] == item);
    assert(m.buffered.push(item).skip(1) =~= Seq::<u8>::empty());
}

/// A non-blocking endpoint never parks: a push on a non-blocking producer
/// and a pop on a non-blocking consumer always return at once.  This is why
/// switching a side to non-blocking (which wakes its parked threads) lets
/// each of them finish with `Eagain` instead of blocking forever.
pub proof fn lemma_nonblocking_never_parks(m: ChannelModel, item: u8)
    ensures
        m.producer_nonblocking ==> m.push_tr(item).1 != PushOutcome::Park,
        m.consumer_nonblocking ==> m.pop_tr().1 != PopOutcome::Park,
{
}

/// Pushing a sequence of bytes onto an open channel with room for all of
/// them appends them in order, and leaves the channel open and well-formed.
pub proof fn lemma_push_all_appends(m: ChannelModel, items: Seq<u8>)
    requires
        m.wf(),
        !m.producer_shutdown,
        !m.consumer_shutdown,
        m.buffered.len() + items.len() <= m.capacity,
    ensures
        m.push_all_tr(items).wf(),
        m.push_all_tr(items).buffered == m.buffered + items,
        m.push_all_tr(items).capacity == m.capacity,
        !m.push_all_tr(items).producer_shutdown,
        !m.push_all_tr(items).consumer_shutdown,
        m.push_all_tr(items).consumer_nonblocking == m.consumer_nonblocking,
    decreases items.len(),
{
    if items.len() == 0 {
        assert(m.buffered + items =~= m.buffered);
    } else {
        let m1 = m.push_tr(items[0]).0;
        lemma_push_all_appends(m1, items.skip(1));
        assert(m.buffered.push(items[0]) + items.skip(1) =~= m.buffered + items);
    }
}

/// Popping `k` times, with at least `k` bytes buffered, yields exactly the
/// `k` oldest bytes in order and leaves the rest, whatever the modes; the
/// shutdown flags and capacity are untouched.
pub proof fn lemma_pop_seq_yields_prefix(m: ChannelModel, k: nat)
    requires
        !m.consumer_shutdown,
        k <= m.buffered.len(),
    ensures
        m.pop_seq_tr(k).1 == m.buffered.take(k as int),
        m.pop_seq_tr(k).0.buffered == m.buffered.skip(k as int),
        m.pop_seq_tr(k).0.capacity == m.capacity,
        m.pop_seq_tr(k).0.producer_shutdown == m.producer_shutdown,
        !m.pop_seq_tr(k).0.consumer_shutdown,
    decreases k,
{
    if k == 0 {
        assert(m.buffered.take(0) =~= Seq::<u8>::empty());
        assert(m.buffered.skip(0) =~= m.buffered);
    } else {
        let m1 = m.pop_tr().0;
        lemma_pop_seq_yields_prefix(m1, (k - 1) as nat);
        assert(seq![m.buffered[0]] + m.buffered.skip(1).take(k - 1) =~= m.buffered.take(
            k as int,
        ));
        assert(m.buffered.skip(1).skip(k - 1) =~= m.buffered.skip(k as int));
    }
}

/// First-in, first-out: pushing a sequence of bytes onto an empty, open
/// channel with no interleaved pops, then popping as many times, yields the
/// same bytes in the same order.
pub proof fn lemma_fifo(m: ChannelModel, items: Seq<u8>)
    requires
        m.wf(),
        m.buffered.len() == 0,
        !m.producer_shutdown,
        !m.consumer_shutdown,
        items.len() <= m.capacity,
    ensures
        m.push_all_tr(items).pop_seq_tr(items.len()).1 == items,
{
    lemma_push_all_appends(m, items);
    let m1 = m.push_all_tr(items);
    assert(m1.buffered =~= items);
    lemma_pop_seq_yields_prefix(m1, items.len());
    assert(items.take(items.len() as int) =~= items);
}

/// After the producer shuts down with bytes still buffered, pops drain
/// every one of them in order, and only once the buffer is empty does a pop
/// return the clean end of stream.
pub proof fn lemma_drain_after_producer_shutdown(m: ChannelModel)
    requires
        m.producer_shutdown,
        !m.consumer_shutdown,
    ensures
        m.pop_seq_tr(m.buffered.len()).1 == m.buffered,
        m.pop_seq_tr(m.buffered.len()).0.pop_tr().1 == PopOutcome::Eos,
{
    lemma_pop_seq_yields_prefix(m, m.buffered.len());
    assert(m.buffered.take(m.buffered.len() as int) =~= m.buffered);
    assert(m.pop_seq_tr(m.buffered.len()).0.buffered.len() == 0);
}

/// A push that had to park keeps parking only while its side stays
/// blocking: after the producer is switched to non-blocking (which wakes
/// its parked threads), the retried attempt returns `Eagain` instead of
/// parking again — and if room or a shutdown appeared meanwhile, the retry
/// observes that instead, since parking decides nothing by itself.
pub proof fn lemma_toggle_nonblocking_unparks_push(m: ChannelModel, item: u8)
    requires
        m.push_tr(item).1 == PushOutcome::Park,
    ensures
        (ChannelModel { producer_nonblocking: true, ..m }).push_tr(item).1
            == PushOutcome::Eagain,
{
}

/// Every operation preserves well-formedness, and shutdown is monotonic:
/// no transition ever clears a shutdown flag.
pub proof fn lemma_transitions_preserve_wf_and_shutdown(m: ChannelModel, item: u8, items: Seq<u8>, len: int)
    requires
        m.wf(),
    ensures
        m.push_tr(item).0.wf(),
        m.pop_tr().0.wf(),
        m.push_slice_tr(items).0.wf(),
        m.pop_slice_tr(len).0.wf(),
        m.producer_shutdown_tr().wf(),
        m.consumer_shutdown_tr().wf(),
        m.producer_shutdown ==> m.push_tr(item).0.producer_shutdown
            && m.pop_tr().0.producer_shutdown
            && m.push_slice_tr(items).0.producer_shutdown
            && m.pop_slice_tr(len).0.producer_shutdown
            && m.producer_shutdown_tr().producer_shutdown
            && m.consumer_shutdown_tr().producer_shutdown,
        m.consumer_shutdown ==> m.push_tr(item).0.consumer_shutdown
            && m.pop_tr().0.consumer_shutdown
            && m.push_slice_tr(items).0.consumer_shutdown
            && m.pop_slice_tr(len).0.consumer_shutdown
            && m.producer_shutdown_tr().consumer_shutdown
            && m.consumer_shutdown_tr().consumer_shutdown,
{
}

} // verus!
