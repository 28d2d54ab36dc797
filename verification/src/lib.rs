//! Error classification for services and control planes.
//!
//! A `Fault` separates failures into domain errors that callers branch on,
//! transient errors that are usually retried, and invariant violations after
//! which the current operation must stop. `Never` in the transient slot
//! states that a function cannot fail transiently; invariant violations are
//! available on every fault.
use vstd::prelude::*;

pub mod either;
pub mod errorkind;
pub mod fault;
pub mod laws;
pub mod result_ext;
mod sealed;
pub mod wire;

pub use either::Either;
pub use errorkind::ErrorKind;
pub use errorkind::Never;
pub use fault::Fault;
pub use wire::{DecodeError, FaultRepr, FaultVariant};

verus! {

/// Marker for checking the crate's documentation examples.
pub struct ReadmeDoctests;

} // verus!
