use vstd::prelude::*;

verus! {

/// One of two values: what a split takes out of a fault (`Left`), or what
/// it leaves behind (`Right`).
#[derive(Debug, Clone, PartialEq, Eq, Hash)]
pub enum Either<L, R> {
    Left(L),
    Right(R),
}

} // verus!
