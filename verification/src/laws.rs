//! What the channel guarantees, proved over its mathematical state.
//!
//! Every statement here is about [`Channel`], the state that the operations of
//! [`crate::local::LocalAnnouncement`] are specified by, so each holds of any
//! run of that type. Where the generation counter wraps around within the span
//! that a statement looks at, the statement says so in its premises.

use vstd::prelude::*;
use crate::channel::{announce_all, poll_repeatedly, subscribe_all, Channel};
use crate::generation::{lemma_advance_is_modular, spec_advance, spec_next_generation};
use crate::receiver::Reception;
use crate::waiters::{lemma_present_push, WaiterId};

verus! {

/// A poll never changes the slot or the counter, and never the target of the
/// operation it polls.
pub proof fn lemma_poll_keeps_slot<T, W>(channel: Channel<T, W>, reception: Reception, callback: W)
    ensures
        channel.after_poll(reception, callback).generation == channel.generation,
        channel.after_poll(reception, callback).message == channel.message,
        channel.polled(reception).target == reception.target,
        channel.polled(reception).waiter is Some,
{
}

/// No stale delivery, one poll: an operation that waits for the announce after
/// the current generation gets nothing from a poll, whatever the slot holds,
/// unless the counter stands at its maximum.
pub proof fn lemma_no_stale_delivery_step<T, W>(channel: Channel<T, W>, reception: Reception)
    requires
        reception.target == spec_next_generation(channel.generation),
        channel.generation < u32::MAX,
    ensures
        channel.taken_by(reception) is None,
{
}

/// No stale delivery: a receive operation that starts after an announce has
/// completed is not satisfied by that announce. However often it is polled,
/// every poll yields nothing as long as no further announce happens. The one
/// exception is a counter that stands at its maximum when the operation starts.
pub proof fn lemma_no_stale_delivery<T, W>(channel: Channel<T, W>, callbacks: Seq<W>)
    requires
        channel.generation < u32::MAX,
    ensures
        forall|i: int|
            0 <= i < callbacks.len() ==> (#[trigger] poll_repeatedly(
                channel,
                channel.recv(),
                callbacks,
            ).2[i]) is None,
        poll_repeatedly(channel, channel.recv(), callbacks).2.len() == callbacks.len(),
        poll_repeatedly(channel, channel.recv(), callbacks).0.generation == channel.generation,
        poll_repeatedly(channel, channel.recv(), callbacks).0.message == channel.message,
        poll_repeatedly(channel, channel.recv(), callbacks).1.target == channel.recv().target,
    decreases callbacks.len(),
{
    if callbacks.len() > 0 {
        lemma_no_stale_delivery(channel, callbacks.drop_last());
    }
}

/// Liveness under a single announce: a receive operation that was started and
/// polled, then followed by one announce, yields the announced message at its
/// next poll; and that announce hands out the operation's callback for waking,
/// after those of the consumers that waited before it.
pub proof fn lemma_single_announce_delivers<T, W>(
    channel: Channel<T, W>,
    callback: W,
    message: T,
)
    ensures
        ({
            let started = channel.recv();
            let waiting = channel.after_poll(started, callback);
            let registered = channel.polled(started);
            &&& channel.taken_by(started) is None
            &&& waiting.woken() == channel.woken().push(callback)
            &&& waiting.announce(message).taken_by(registered) == Some(message)
        }),
{
    lemma_present_push(channel.waiters.entries, Some(callback));
}

/// Liveness when the announce comes before the first poll: the operation
/// registers at its first poll, is not woken by the announce it missed, and
/// yields the announced message at any poll after the first.
pub proof fn lemma_announce_before_first_poll<T, W>(
    channel: Channel<T, W>,
    callback: W,
    message: T,
)
    ensures
        ({
            let started = channel.recv();
            let announced = channel.announce(message);
            let waiting = announced.after_poll(started, callback);
            let registered = announced.polled(started);
            &&& announced.taken_by(started) is None
            &&& waiting.waiters.linked(registered.waiter->0)
            &&& waiting.taken_by(registered) == Some(message)
        }),
{
}

/// Broadcast fan-out: when any number of consumers have started to receive and
/// were each polled once, a single announce hands out all their callbacks, in
/// the order in which they registered and after those of earlier waiters, and
/// each of the operations yields the announced message at its next poll. These
/// polls leave the channel unchanged, so their order does not matter.
pub proof fn lemma_fan_out<T, W>(channel: Channel<T, W>, callbacks: Seq<W>, message: T)
    ensures
        ({
            let (waiting, receptions) = subscribe_all(channel, callbacks);
            let announced = waiting.announce(message);
            &&& receptions.len() == callbacks.len()
            &&& waiting.generation == channel.generation
            &&& waiting.message == channel.message
            &&& waiting.woken() == channel.woken() + callbacks
            &&& forall|i: int|
                0 <= i < receptions.len() ==> {
                    &&& announced.taken_by(#[trigger] receptions[i]) == Some(message)
                    &&& forall|unused: W| announced.after_poll(receptions[i], unused) == announced
                    &&& announced.polled(receptions[i]) == receptions[i]
                }
        }),
    decreases callbacks.len(),
{
    if callbacks.len() == 0 {
        assert(channel.woken() + callbacks =~= channel.woken());
    } else {
        let earlier = callbacks.drop_last();
        lemma_fan_out(channel, earlier, message);
        let (before, _) = subscribe_all(channel, earlier);
        lemma_present_push(before.waiters.entries, Some(callbacks.last()));
        assert((channel.woken() + earlier).push(callbacks.last()) =~= channel.woken() + callbacks);
    }
}

/// Lossy overwrite: when two announces follow each other before a registered
/// operation is polled again, the operation yields the second message. The
/// first is never yielded. The one exception to the former is a counter that
/// the second announce wraps to zero: then the poll yields nothing.
pub proof fn lemma_lossy_overwrite<T, W>(
    channel: Channel<T, W>,
    callback: W,
    first: T,
    second: T,
)
    ensures
        ({
            let started = channel.recv();
            let waiting = channel.after_poll(started, callback);
            let registered = channel.polled(started);
            let taken = waiting.announce(first).announce(second).taken_by(registered);
            &&& channel.generation != u32::MAX - 1 ==> taken == Some(second)
            &&& channel.generation == u32::MAX - 1 ==> taken is None
            &&& first != second ==> taken != Some(first)
        }),
{
}

/// Cancellation: when a registered operation is cancelled before it was woken,
/// its callback is given back and leaves the list, the next announce hands out
/// the callbacks of all other waiters and not this one, and the registration is
/// linked in no later state of the list.
pub proof fn lemma_cancelled_is_not_woken<T, W>(channel: Channel<T, W>, reception: Reception)
    requires
        reception.waiter is Some,
        channel.waiters.linked(reception.waiter->0),
    ensures
        ({
            let id = reception.waiter->0;
            let cancelled = channel.cancel(reception);
            &&& channel.reclaimed_by(reception) == Some(channel.waiters.callback(id))
            &&& channel.woken()[channel.waiters.position(id) as int] == channel.waiters.callback(id)
            &&& cancelled.woken() == channel.woken().remove(channel.waiters.position(id) as int)
            &&& cancelled.generation == channel.generation
            &&& cancelled.message == channel.message
            &&& cancelled.waiters.issued(id)
            &&& !cancelled.waiters.linked(id)
        }),
{
    let id = reception.waiter->0;
    channel.waiters.lemma_pending_holds_linked(id);
    channel.waiters.lemma_unlink(id);
}

/// Cancelling an operation that just registered undoes the registration as
/// far as waking goes: the next announce wakes exactly those who waited before.
pub proof fn lemma_cancel_undoes_registration<T, W>(channel: Channel<T, W>, callback: W)
    ensures
        ({
            let started = channel.recv();
            let waiting = channel.after_poll(started, callback);
            let registered = channel.polled(started);
            &&& waiting.reclaimed_by(registered) == Some(callback)
            &&& waiting.cancel(registered).woken() == channel.woken()
        }),
{
    let started = channel.recv();
    let waiting = channel.after_poll(started, callback);
    let registered = channel.polled(started);
    let id = registered.waiter->0;
    lemma_present_push(channel.waiters.entries, Some(callback));
    assert(waiting.waiters.entries.update(id.index as int, None) =~= channel.waiters.entries.push(
        None,
    ));
    lemma_present_push(channel.waiters.entries, None);
}

/// An announce unlinks every waiter, and a poll of a registered operation
/// never registers again. So an operation that was woken and then polls to
/// nothing is in no list: only another poll can complete it, no announce will
/// wake it.
pub proof fn lemma_woken_is_not_relinked<T, W>(
    channel: Channel<T, W>,
    reception: Reception,
    message: T,
    callback: W,
)
    requires
        reception.waiter is Some,
    ensures
        !channel.announce(message).waiters.linked(reception.waiter->0),
        channel.after_poll(reception, callback) == channel,
        channel.polled(reception) == reception,
{
    channel.waiters.lemma_wake_all();
}

/// Generation monotonicity: after any sequence of announces the counter stands
/// at its old value plus the number of announces, modulo 2^32. It has not gone
/// down unless it wrapped.
pub proof fn lemma_generation_counts_announces<T, W>(channel: Channel<T, W>, messages: Seq<T>)
    ensures
        announce_all(channel, messages).generation == spec_advance(
            channel.generation,
            messages.len(),
        ),
        announce_all(channel, messages).generation as int == (channel.generation as int
            + messages.len() as int) % 0x1_0000_0000,
        channel.generation + messages.len() <= u32::MAX ==> announce_all(
            channel,
            messages,
        ).generation >= channel.generation,
        messages.len() > 0 ==> announce_all(channel, messages).message == Some(messages.last()),
    decreases messages.len(),
{
    if messages.len() > 0 {
        lemma_generation_counts_announces(channel, messages.drop_last());
    }
    lemma_advance_is_modular(channel.generation, messages.len());
}

} // verus!
