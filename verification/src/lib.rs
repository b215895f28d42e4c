//! A lossy broadcast channel with a single slot.
//!
//! Any number of producers announce values; every announce overwrites the slot,
//! advances a generation counter and wakes the consumers that wait at that
//! moment. A consumer only ever accepts a value announced after it started to
//! wait, and sees the newest one: values overwritten before it looks are lost.

pub mod generation;
pub mod waiters;
pub mod receiver;
pub mod channel;
pub mod local;
pub mod laws;
pub mod shared;
pub mod wake;
mod slot;

pub use crate::local::LocalAnnouncement;
pub use crate::receiver::Receiver;
pub use crate::shared::Announcement;
pub use crate::waiters::{WaiterHandle, WaiterList};
