//! The shared message slot: a cell that any thread may load from and store to.
//!
//! The cell is `atomic::Atomic`. Nothing here is proved about it, and nothing
//! is claimed of what a load returns: another thread may have stored in between.

use vstd::prelude::*;
use atomic::Atomic;
use core::sync::atomic::Ordering;

verus! {

/// `atomic::Atomic<T>`, a cell for a `Copy` value that is read and written as
/// a whole. Its content is not visible to proofs.
#[verifier::external_type_specification]
#[verifier::external_body]
#[verifier::reject_recursive_types(T)]
pub struct ExAtomic<T>(Atomic<T>);

/// `Atomic::new` wraps a value into a cell. No claim is made of the result.
pub assume_specification<T>[ Atomic::<T>::new ](v: T) -> Atomic<T>;

/// Calls `Atomic::load` with relaxed ordering, with which it does not panic.
/// The result is whatever some store last left in the cell, so the contract
/// says nothing of it.
#[verifier::external_body]
pub(crate) fn load_relaxed<T: Copy>(cell: &Atomic<T>) -> T {
    cell.load(Ordering::Relaxed)
}

/// Calls `Atomic::store` with relaxed ordering, with which it does not panic.
#[verifier::external_body]
pub(crate) fn store_relaxed<T: Copy>(cell: &Atomic<T>, value: T) {
    cell.store(value, Ordering::Relaxed)
}

} // verus!
