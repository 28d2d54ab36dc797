use vstd::prelude::*;

use crate::either::Either;
use crate::errorkind::{ErrorKind, Never};
use crate::fault::{converts_into, make_invariant_violation, reports_violation, Fault};

verus! {

/// Extension trait for wrapping arbitrary errors as `Fault`.
///
/// Each method returns a maximally constrained error type with `Never` in
/// the transient slot unless the method sets it. This allows `?` to widen via
/// the existing `From` impl.
pub trait ResultIntoFaultExt<OK, E>: Sized {
    /// Wrap error as a domain error.
    ///
    /// To widen the domain type, chain with `.upcast_err()`.
    fn map_err_into_domain(self) -> Result<OK, Fault<E, Never>>;

    /// Wrap error as a transient error.
    fn map_err_into_transient(self) -> Result<OK, Fault<Never, anyhow::Error>>
        where
            E: Into<anyhow::Error>,
    ;

    /// Wrap error as an invariant violation.
    ///
    /// `description` names the invariant that was violated.
    fn map_err_into_invariant(self, description: &str) -> Result<OK, Fault<Never, Never>>
        where
            E: Into<anyhow::Error>,
    ;
}

impl<OK, E> ResultIntoFaultExt<OK, E> for Result<OK, E> {
    fn map_err_into_domain(self) -> (r: Result<OK, Fault<E, Never>>)
        ensures
            match self {
                Ok(v) => r == Ok::<OK, Fault<E, Never>>(v),
                Err(e) => r == Err::<OK, Fault<E, Never>>(Fault::Domain(e)),
            },
    {
        match self {
            Ok(v) => Ok(v),
            Err(e) => Err(Fault::Domain(e)),
        }
    }

    fn map_err_into_transient(self) -> (r: Result<OK, Fault<Never, anyhow::Error>>)
        where
            E: Into<anyhow::Error>,
        ensures
            match self {
                Ok(v) => r == Ok::<OK, Fault<Never, anyhow::Error>>(v),
                Err(e) => r matches Err(Fault::Transient(t)) && converts_into(e, t),
            },
    {
        match self {
            Ok(v) => Ok(v),
            Err(e) => Err(Fault::Transient(e.into())),
        }
    }

    fn map_err_into_invariant(self, description: &str) -> (r: Result<OK, Fault<Never, Never>>)
        where
            E: Into<anyhow::Error>,
        ensures
            match self {
                Ok(v) => r == Ok::<OK, Fault<Never, Never>>(v),
                Err(e) => r matches Err(Fault::Invariant(i)) && exists|source: anyhow::Error|
                    #[trigger] converts_into(e, source) && reports_violation(i, description@, source),
            },
    {
        match self {
            Ok(v) => Ok(v),
            Err(e) => Err(Fault::Invariant(make_invariant_violation(description, e))),
        }
    }
}

/// Operations on the fault inside a `Result`, mirroring those of `Fault`.
pub trait ResultExt<OK, D, T>: Sized where T: ErrorKind {
    /// The fault this result carries, if it is an error.
    spec fn fault_of(&self) -> Option<Fault<D, T>>;

    /// Map the domain error type
    fn map_err_domain<D2, F: FnOnce(D) -> D2>(self, f: F) -> Result<OK, Fault<D2, T>>
        requires
            self.fault_of() matches Some(Fault::Domain(d)) ==> call_requires(f, (d,)),
    ;

    /// Map the transient error type
    fn map_err_transient<T2, F: FnOnce(T) -> T2>(self, f: F) -> Result<OK, Fault<D, T2>>
        where
            T2: ErrorKind,
        requires
            self.fault_of() matches Some(Fault::Transient(t)) ==> call_requires(f, (t,)),
    ;

    /// Map the invariant error
    fn map_err_invariant<F: FnOnce(anyhow::Error) -> anyhow::Error>(self, f: F) -> Result<OK, Fault<D, T>>
        requires
            self.fault_of() matches Some(Fault::Invariant(i)) ==> call_requires(f, (i,)),
    ;

    /// Upcast the domain error type
    fn upcast_err<U>(self) -> Result<OK, Fault<U, T>>
        where
            U: From<D>,
    ;

    /// Inspect the domain error if present (with side effects)
    #[must_use]
    fn inspect_err_domain<F: FnOnce(&D)>(self, f: F) -> Self
        requires
            self.fault_of() matches Some(Fault::Domain(d)) ==> call_requires(f, (&d,)),
    ;

    /// Inspect the transient error if present (with side effects)
    #[must_use]
    fn inspect_err_transient<F: FnOnce(&T)>(self, f: F) -> Self
        requires
            self.fault_of() matches Some(Fault::Transient(t)) ==> call_requires(f, (&t,)),
    ;

    /// Inspect the invariant error if present (with side effects)
    #[must_use]
    fn inspect_err_invariant<F: FnOnce(&anyhow::Error)>(self, f: F) -> Self
        requires
            self.fault_of() matches Some(Fault::Invariant(i)) ==> call_requires(f, (&i,)),
    ;

    /// Extract domain errors for handling, propagate transient/invariant
    #[must_use]
    fn extract_err_domain(self) -> Either<D, Result<OK, Fault<Never, T>>>;

    /// Extract transient errors for handling, propagate domain/invariant
    #[must_use]
    fn extract_err_transient(self) -> Either<T, Result<OK, Fault<D, Never>>>;

    /// Extract invariant errors for handling, propagate domain/transient
    #[must_use]
    fn extract_err_invariant(self) -> Either<anyhow::Error, Result<OK, Fault<D, T>>>;

    /// Converts domain errors to invariant violations; passes through transient
    /// and invariant errors unchanged.
    ///
    /// `description` names the invariant that a domain error here breaks.
    fn expect_err_not_domain(self, description: &str) -> Result<OK, Fault<Never, T>>
        where
            D: Into<anyhow::Error>,
    ;
}

/// What `extract_err_domain` gives for a result.
pub open spec fn split_err_domain<OK, D, T: ErrorKind>(r: Result<OK, Fault<D, T>>) -> Either<D, Result<OK, Fault<Never, T>>> {
    match r {
        Ok(v) => Either::Right(Ok(v)),
        Err(e) => match e.domain_split() {
            Either::Left(d) => Either::Left(d),
            Either::Right(other) => Either::Right(Err(other)),
        },
    }
}

/// What `extract_err_transient` gives for a result.
pub open spec fn split_err_transient<OK, D, T: ErrorKind>(r: Result<OK, Fault<D, T>>) -> Either<T, Result<OK, Fault<D, Never>>> {
    match r {
        Ok(v) => Either::Right(Ok(v)),
        Err(e) => match e.transient_split() {
            Either::Left(t) => Either::Left(t),
            Either::Right(other) => Either::Right(Err(other)),
        },
    }
}

/// What `extract_err_invariant` gives for a result.
pub open spec fn split_err_invariant<OK, D, T: ErrorKind>(r: Result<OK, Fault<D, T>>) -> Either<anyhow::Error, Result<OK, Fault<D, T>>> {
    match r {
        Ok(v) => Either::Right(Ok(v)),
        Err(e) => match e.invariant_split() {
            Either::Left(i) => Either::Left(i),
            Either::Right(other) => Either::Right(Err(other)),
        },
    }
}

impl<OK, D, T> ResultExt<OK, D, T> for Result<OK, Fault<D, T>> where T: ErrorKind {
    open spec fn fault_of(&self) -> Option<Fault<D, T>> {
        match self {
            Ok(_) => None,
            Err(e) => Some(*e),
        }
    }

    fn map_err_domain<D2, F: FnOnce(D) -> D2>(self, f: F) -> (r: Result<OK, Fault<D2, T>>)
        ensures
            match self {
                Ok(v) => r == Ok::<OK, Fault<D2, T>>(v),
                Err(e) => r matches Err(e2) && e.maps_domain(f, e2),
            },
            self matches Err(Fault::Domain(d)) ==> (r matches Err(Fault::Domain(d2)) && call_ensures(f, (d,), d2)),
    {
        match self {
            Ok(v) => Ok(v),
            Err(e) => Err(e.map_domain(f)),
        }
    }

    fn map_err_transient<T2, F: FnOnce(T) -> T2>(self, f: F) -> (r: Result<OK, Fault<D, T2>>)
        where
            T2: ErrorKind,
        ensures
            match self {
                Ok(v) => r == Ok::<OK, Fault<D, T2>>(v),
                Err(e) => r matches Err(e2) && e.maps_transient(f, e2),
            },
            self matches Err(Fault::Transient(t)) ==> (r matches Err(Fault::Transient(t2)) && call_ensures(f, (t,), t2)),
    {
        match self {
            Ok(v) => Ok(v),
            Err(e) => Err(e.map_transient(f)),
        }
    }

    fn map_err_invariant<F: FnOnce(anyhow::Error) -> anyhow::Error>(self, f: F) -> (r: Result<OK, Fault<D, T>>)
        ensures
            match self {
                Ok(v) => r == Ok::<OK, Fault<D, T>>(v),
                Err(e) => r matches Err(e2) && e.maps_invariant(f, e2),
            },
            self matches Err(Fault::Invariant(i)) ==> (r matches Err(Fault::Invariant(i2)) && call_ensures(f, (i,), i2)),
    {
        match self {
            Ok(v) => Ok(v),
            Err(e) => Err(e.map_invariant(f)),
        }
    }

    fn upcast_err<U>(self) -> (r: Result<OK, Fault<U, T>>)
        where
            U: From<D>,
        ensures
            match self {
                Ok(v) => r == Ok::<OK, Fault<U, T>>(v),
                Err(e) => r matches Err(e2) && e.upcasts_to(e2),
            },
    {
        match self {
            Ok(v) => Ok(v),
            Err(e) => Err(e.upcast()),
        }
    }

    fn inspect_err_domain<F: FnOnce(&D)>(self, f: F) -> (r: Self)
        ensures
            r == self,
            self matches Err(Fault::Domain(d)) ==> call_ensures(f, (&d,), ()),
    {
        match self {
            Ok(v) => Ok(v),
            Err(e) => Err(e.inspect_domain(f)),
        }
    }

    fn inspect_err_transient<F: FnOnce(&T)>(self, f: F) -> (r: Self)
        ensures
            r == self,
            self matches Err(Fault::Transient(t)) ==> call_ensures(f, (&t,), ()),
    {
        match self {
            Ok(v) => Ok(v),
            Err(e) => Err(e.inspect_transient(f)),
        }
    }

    fn inspect_err_invariant<F: FnOnce(&anyhow::Error)>(self, f: F) -> (r: Self)
        ensures
            r == self,
            self matches Err(Fault::Invariant(i)) ==> call_ensures(f, (&i,), ()),
    {
        match self {
            Ok(v) => Ok(v),
            Err(e) => Err(e.inspect_invariant(f)),
        }
    }

    fn extract_err_domain(self) -> (r: Either<D, Result<OK, Fault<Never, T>>>)
        ensures
            r == split_err_domain(self),
    {
        match self {
            Ok(ok) => Either::Right(Ok(ok)),
            Err(err) => match err.extract_domain() {
                Either::Left(domain) => Either::Left(domain),
                Either::Right(other) => Either::Right(Err(other)),
            },
        }
    }

    fn extract_err_transient(self) -> (r: Either<T, Result<OK, Fault<D, Never>>>)
        ensures
            r == split_err_transient(self),
    {
        match self {
            Ok(ok) => Either::Right(Ok(ok)),
            Err(err) => match err.extract_transient() {
                Either::Left(transient) => Either::Left(transient),
                Either::Right(other) => Either::Right(Err(other)),
            },
        }
    }

    fn extract_err_invariant(self) -> (r: Either<anyhow::Error, Result<OK, Fault<D, T>>>)
        ensures
            r == split_err_invariant(self),
    {
        match self {
            Ok(ok) => Either::Right(Ok(ok)),
            Err(err) => match err.extract_invariant() {
                Either::Left(violation) => Either::Left(violation),
                Either::Right(other) => Either::Right(Err(other)),
            },
        }
    }

    fn expect_err_not_domain(self, description: &str) -> (r: Result<OK, Fault<Never, T>>)
        where
            D: Into<anyhow::Error>,
        ensures
            match self {
                Ok(v) => r == Ok::<OK, Fault<Never, T>>(v),
                Err(e) => r matches Err(e2) && e.escalates_to(description@, e2),
            },
            self matches Err(Fault::Invariant(i)) ==> r == Err::<OK, Fault<Never, T>>(Fault::Invariant(i)),
            self matches Err(Fault::Transient(t)) ==> r == Err::<OK, Fault<Never, T>>(Fault::Transient(t)),
            self matches Err(Fault::Domain(_)) ==> r matches Err(Fault::Invariant(_)),
    {
        match self {
            Ok(v) => Ok(v),
            Err(e) => Err(e.expect_err_not_domain(description)),
        }
    }
}

/// Widening of a result whose fault has no domain error.
pub trait ResultSquashExt<OK, T>: Sized where T: ErrorKind {
    /// Squash a domain-infallible error to any domain type
    fn squash_err<D>(self) -> Result<OK, Fault<D, T>>;
}

impl<OK, T> ResultSquashExt<OK, T> for Result<OK, Fault<Never, T>> where T: ErrorKind {
    fn squash_err<D>(self) -> (r: Result<OK, Fault<D, T>>)
        ensures
            match self {
                Ok(v) => r == Ok::<OK, Fault<D, T>>(v),
                Err(e) => r == Err::<OK, Fault<D, T>>(e.squashed::<D>()),
            },
    {
        match self {
            Ok(v) => Ok(v),
            Err(e) => Err(e.squash()),
        }
    }
}

} // verus!
