use vstd::prelude::*;

verus! {

/// Closes `ErrorKind` to the two transient slots this crate defines:
/// `Never` and `anyhow::Error`.
pub trait Sealed {}

} // verus!
