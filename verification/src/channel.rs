//! The channel as a mathematical object: the slot, the generation counter and
//! the waiter list, and what each operation makes of them.

use vstd::prelude::*;
use crate::generation::{spec_delivery, spec_next_generation};
use crate::receiver::Reception;
use crate::waiters::Waiters;

verus! {

/// The mathematical state of a channel for messages of type `T` whose waiters
/// leave callbacks of type `W`.
pub struct Channel<T, W> {
    /// The message of the latest announce, `None` before the first.
    pub message: Option<T>,
    /// The number of announces so far, modulo 2^32.
    pub generation: u32,
    /// The consumers that wait to be woken.
    pub waiters: Waiters<W>,
}

impl<T, W> Channel<T, W> {
    /// The channel on which nothing has happened yet.
    pub open spec fn empty() -> Self {
        Channel { message: None, generation: 0, waiters: Waiters::empty() }
    }

    /// The channel after `message` was announced: the counter has advanced, the
    /// slot holds the message, and every waiter was taken out of the list.
    pub open spec fn announce(self, message: T) -> Self {
        Channel {
            message: Some(message),
            generation: spec_next_generation(self.generation),
            waiters: self.waiters.wake_all(),
        }
    }

    /// The callbacks that an announce on this channel hands out for waking.
    pub open spec fn woken(self) -> Seq<W> {
        self.waiters.pending()
    }

    /// The receive operation that starts on this channel.
    pub open spec fn recv(self) -> Reception {
        Reception::begin(self.generation)
    }

    /// The channel after `reception` was polled with `callback` at hand: an
    /// unregistered operation registers the callback, a registered one leaves
    /// the channel as it is.
    pub open spec fn after_poll(self, reception: Reception, callback: W) -> Self {
        if reception.waiter is None {
            Channel {
                message: self.message,
                generation: self.generation,
                waiters: self.waiters.register(callback),
            }
        } else {
            self
        }
    }

    /// The receive operation after it was polled on this channel.
    pub open spec fn polled(self, reception: Reception) -> Reception {
        if reception.waiter is None {
            reception.registered(self.waiters.next_id())
        } else {
            reception
        }
    }

    /// What polling `reception` on this channel yields. The poll that registers
    /// never yields a message; a later one yields the slot's message once the
    /// counter has reached the operation's target.
    pub open spec fn taken_by(self, reception: Reception) -> Option<T> {
        if reception.waiter is None {
            None
        } else {
            spec_delivery(reception.target, self.generation, self.message)
        }
    }

    /// The channel after `reception` was cancelled: its registration, if it
    /// still waits, is gone from the list.
    pub open spec fn cancel(self, reception: Reception) -> Self {
        match reception.waiter {
            Some(id) => Channel {
                message: self.message,
                generation: self.generation,
                waiters: self.waiters.unlink(id),
            },
            None => self,
        }
    }

    /// The callback that cancelling `reception` gives back: the one it had
    /// registered, unless it was woken in the meantime or never registered.
    pub open spec fn reclaimed_by(self, reception: Reception) -> Option<W> {
        match reception.waiter {
            Some(id) => if self.waiters.linked(id) {
                Some(self.waiters.callback(id))
            } else {
                None
            },
            None => None,
        }
    }
}

/// The channel after the messages `messages` were announced, first to last.
pub open spec fn announce_all<T, W>(channel: Channel<T, W>, messages: Seq<T>) -> Channel<T, W>
    decreases messages.len(),
{
    if messages.len() == 0 {
        channel
    } else {
        announce_all(channel, messages.drop_last()).announce(messages.last())
    }
}

/// The channel, and the receive operations, after one consumer for each of
/// `callbacks` started to receive and was polled once, in that order.
pub open spec fn subscribe_all<T, W>(channel: Channel<T, W>, callbacks: Seq<W>) -> (
    Channel<T, W>,
    Seq<Reception>,
)
    decreases callbacks.len(),
{
    if callbacks.len() == 0 {
        (channel, Seq::empty())
    } else {
        let (before, receptions) = subscribe_all(channel, callbacks.drop_last());
        let reception = before.recv();
        (
            before.after_poll(reception, callbacks.last()),
            receptions.push(before.polled(reception)),
        )
    }
}

/// The channel, the receive operation and what each poll yielded, after
/// `reception` was polled once for each of `callbacks`, in that order.
pub open spec fn poll_repeatedly<T, W>(
    channel: Channel<T, W>,
    reception: Reception,
    callbacks: Seq<W>,
) -> (Channel<T, W>, Reception, Seq<Option<T>>)
    decreases callbacks.len(),
{
    if callbacks.len() == 0 {
        (channel, reception, Seq::empty())
    } else {
        let (before, current, taken) = poll_repeatedly(channel, reception, callbacks.drop_last());
        (
            before.after_poll(current, callbacks.last()),
            before.polled(current),
            taken.push(before.taken_by(current)),
        )
    }
}

} // verus!
