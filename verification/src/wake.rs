//! Resuming suspended consumers through the scheduler's `Waker`.

use vstd::prelude::*;
use core::task::Waker;

verus! {

/// `core::task::Waker`, the scheduler's handle for resuming one task. Opaque
/// to proofs.
#[verifier::external_type_specification]
#[verifier::external_body]
pub struct ExWaker(Waker);

/// `Waker::wake` tells the scheduler to poll the task again. What the
/// scheduler does is outside this library; no claim is made.
pub assume_specification[ Waker::wake ](waker: Waker);

/// `Waker::clone` makes another handle for the same task. No claim is made of
/// the result.
pub assume_specification[ <Waker as Clone>::clone ](waker: &Waker) -> Waker;

/// Invokes each waker once, first to last.
pub fn wake_each(wakers: Vec<Waker>) {
    for waker in wakers {
        waker.wake();
    }
}

} // verus!
