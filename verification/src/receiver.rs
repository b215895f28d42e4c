//! The receive operation: what one consumer keeps between two looks at the
//! channel.

use vstd::prelude::*;
use crate::generation::{next_generation, spec_next_generation};
use crate::waiters::{WaiterHandle, WaiterId};

verus! {

/// The mathematical state of a receive operation.
///
/// It starts unregistered (`waiter` is `None`) and becomes registered, for
/// good, the first time it is polled. `target` is fixed when the operation
/// starts.
pub struct Reception {
    /// The generation that the counter must have reached before a message is
    /// accepted.
    pub target: u32,
    /// The registration in the channel's waiter list, once there is one.
    pub waiter: Option<WaiterId>,
}

impl Reception {
    /// The operation that starts while the counter stands at `generation`: it
    /// waits for the next announce.
    pub open spec fn begin(generation: u32) -> Reception {
        Reception { target: spec_next_generation(generation), waiter: None }
    }

    /// This operation once it was registered under `id`.
    pub open spec fn registered(self, id: WaiterId) -> Reception {
        Reception { target: self.target, waiter: Some(id) }
    }
}

/// One pending receive operation. It belongs to the channel that it was
/// started on, and it cannot be copied: it owns its place in the waiter list.
pub struct Receiver {
    target: u32,
    waiter: Option<WaiterHandle>,
}

impl View for Receiver {
    type V = Reception;

    closed spec fn view(&self) -> Reception {
        Reception {
            target: self.target,
            waiter: match self.waiter {
                Some(handle) => Some(handle@),
                None => None,
            },
        }
    }
}

impl Receiver {
    /// Starts a receive operation from the counter value that was just read.
    pub fn begin(generation: u32) -> (receiver: Receiver)
        ensures
            receiver@ == Reception::begin(generation),
    {
        Receiver { target: next_generation(generation), waiter: None }
    }

    /// The generation that this operation waits for.
    pub fn target_generation(&self) -> (target: u32)
        ensures
            target == self@.target,
    {
        self.target
    }

    /// Whether the operation has left its callback in the waiter list.
    pub fn is_registered(&self) -> (registered: bool)
        ensures
            registered == self@.waiter is Some,
    {
        self.waiter.is_some()
    }

    /// Records the registration that was made for this operation.
    pub(crate) fn set_waiter(&mut self, handle: WaiterHandle)
        ensures
            final(self)@ == old(self)@.registered(handle@),
    {
        self.waiter = Some(handle);
    }

    /// Ends the operation and hands out its registration, if it has one.
    pub(crate) fn into_waiter(self) -> (handle: Option<WaiterHandle>)
        ensures
            handle is Some == self@.waiter is Some,
            handle is Some ==> handle->0@ == self@.waiter->0,
    {
        self.waiter
    }
}

} // verus!
