use vstd::prelude::*;
use vstd::string::to_string_from_display_ensures;

use crate::either::Either;
use crate::errorkind::{displays_exactly, error_from_message, ErrorKind, Never};

verus! {

/// Common error type for classifying failures inside services.
///
/// A fault is a domain error (an expected business failure that callers
/// branch on), a transient error (an operational failure that is usually
/// retried; `T` is `Never` where none can occur), or an invariant violation
/// (broken state after which the current operation must abort).
#[derive(Debug)]
pub enum Fault<D, T = anyhow::Error> where T: ErrorKind {
    /// Domain error: expected business logic failures.
    Domain(D),
    /// Transient error: operational failures that are typically retried.
    Transient(T),
    /// Invariant violation: broken state where continuing is unsafe.
    Invariant(anyhow::Error),
}

/// `source` is a value that converting `error` into an `anyhow::Error` may give.
pub open spec fn converts_into<E: Into<anyhow::Error>>(error: E, source: anyhow::Error) -> bool {
    call_ensures(<E as Into<anyhow::Error>>::into, (error,), source)
}

/// The text of an invariant violation: the invariant's description, a colon
/// and a space, then the text of the error that broke it.
pub open spec fn violation_text(description: Seq<char>, source: Seq<char>) -> Seq<char> {
    description + ": "@ + source
}

/// `e` reports that the invariant `description` names was broken by
/// `source`: it displays exactly the violation text built from the
/// description and a text that `source` displays.
pub open spec fn reports_violation(e: anyhow::Error, description: Seq<char>, source: anyhow::Error) -> bool {
    exists|shown: String|
        #[trigger] to_string_from_display_ensures::<anyhow::Error>(&source, shown)
            && displays_exactly(&e, violation_text(description, shown@))
}

/// Joins an invariant's description and the text of the error that broke it.
fn violation_message(description: &str, source: &str) -> (text: String)
    ensures
        text@ == violation_text(description@, source@),
{
    let mut text = description.to_owned();
    text.append(": ");
    text.append(source);
    text
}

/// Creates an invariant violation error: an error that displays as the
/// invariant's description followed by the text of `error`.
pub(crate) fn make_invariant_violation<E: Into<anyhow::Error>>(description: &str, error: E) -> (r: anyhow::Error)
    ensures
        exists|source: anyhow::Error| #[trigger] converts_into(error, source) && reports_violation(r, description@, source),
{
    let source: anyhow::Error = error.into();
    let shown = source.to_string();
    let text = violation_message(description, shown.as_str());
    let r = error_from_message(text);
    assert(converts_into(error, source));
    r
}

impl<D, T: ErrorKind> Fault<D, T> {
    /// What `extract_domain` gives: the domain error, or the fault with its
    /// domain slot closed.
    pub open spec fn domain_split(self) -> Either<D, Fault<Never, T>> {
        match self {
            Fault::Domain(d) => Either::Left(d),
            Fault::Transient(t) => Either::Right(Fault::Transient(t)),
            Fault::Invariant(i) => Either::Right(Fault::Invariant(i)),
        }
    }

    /// What `extract_transient` gives: the transient error, or the fault with
    /// its transient slot closed.
    pub open spec fn transient_split(self) -> Either<T, Fault<D, Never>> {
        match self {
            Fault::Domain(d) => Either::Right(Fault::Domain(d)),
            Fault::Transient(t) => Either::Left(t),
            Fault::Invariant(i) => Either::Right(Fault::Invariant(i)),
        }
    }

    /// What `extract_invariant` gives: the invariant violation, or the fault
    /// unchanged.
    pub open spec fn invariant_split(self) -> Either<anyhow::Error, Fault<D, T>> {
        match self {
            Fault::Invariant(i) => Either::Left(i),
            _ => Either::Right(self),
        }
    }

    /// `r` is this fault with `f` applied to its domain error.
    pub open spec fn maps_domain<D2, F: FnOnce(D) -> D2>(self, f: F, r: Fault<D2, T>) -> bool {
        match self {
            Fault::Domain(d) => r matches Fault::Domain(d2) && call_ensures(f, (d,), d2),
            Fault::Transient(t) => r == Fault::<D2, T>::Transient(t),
            Fault::Invariant(i) => r == Fault::<D2, T>::Invariant(i),
        }
    }

    /// `r` is this fault with `f` applied to its transient error.
    pub open spec fn maps_transient<T2: ErrorKind, F: FnOnce(T) -> T2>(self, f: F, r: Fault<D, T2>) -> bool {
        match self {
            Fault::Domain(d) => r == Fault::<D, T2>::Domain(d),
            Fault::Transient(t) => r matches Fault::Transient(t2) && call_ensures(f, (t,), t2),
            Fault::Invariant(i) => r == Fault::<D, T2>::Invariant(i),
        }
    }

    /// `r` is this fault with `f` applied to its invariant violation.
    pub open spec fn maps_invariant<F: FnOnce(anyhow::Error) -> anyhow::Error>(self, f: F, r: Self) -> bool {
        match self {
            Fault::Invariant(i) => r matches Fault::Invariant(i2) && call_ensures(f, (i,), i2),
            _ => r == self,
        }
    }

    /// `r` is this fault with its domain error converted by `From`.
    pub open spec fn upcasts_to<D2: From<D>>(self, r: Fault<D2, T>) -> bool {
        match self {
            Fault::Domain(d) => r matches Fault::Domain(d2) && call_ensures(D2::from, (d,), d2),
            Fault::Transient(t) => r == Fault::<D2, T>::Transient(t),
            Fault::Invariant(i) => r == Fault::<D2, T>::Invariant(i),
        }
    }

    /// `r` is this fault with a domain error turned into a violation of the
    /// invariant that `description` names.
    pub open spec fn escalates_to(self, description: Seq<char>, r: Fault<Never, T>) -> bool where D: Into<anyhow::Error> {
        match self {
            Fault::Domain(d) => r matches Fault::Invariant(e) && exists|source: anyhow::Error|
                #[trigger] converts_into(d, source) && reports_violation(e, description, source),
            Fault::Transient(t) => r == Fault::<Never, T>::Transient(t),
            Fault::Invariant(i) => r == Fault::<Never, T>::Invariant(i),
        }
    }

    /// Wraps an error as an invariant violation.
    pub fn invariant_violation(error: impl Into<anyhow::Error>) -> (r: Self)
        ensures
            r matches Fault::Invariant(e) && converts_into(error, e),
    {
        Fault::Invariant(error.into())
    }

    pub fn is_domain(&self) -> (r: bool)
        ensures
            r == self is Domain,
    {
        matches!(self, Fault::Domain(_))
    }

    pub fn is_transient(&self) -> (r: bool)
        ensures
            r == self is Transient,
    {
        matches!(self, Fault::Transient(_))
    }

    pub fn is_invariant(&self) -> (r: bool)
        ensures
            r == self is Invariant,
    {
        matches!(self, Fault::Invariant(_))
    }

    /// Takes out the domain error; any other fault comes back with its
    /// domain slot closed.
    pub fn extract_domain(self) -> (r: Either<D, Fault<Never, T>>)
        ensures
            r == self.domain_split(),
    {
        match self {
            Fault::Domain(d) => Either::Left(d),
            Fault::Transient(t) => Either::Right(Fault::Transient(t)),
            Fault::Invariant(i) => Either::Right(Fault::Invariant(i)),
        }
    }

    /// Takes out the transient error; any other fault comes back with its
    /// transient slot closed.
    pub fn extract_transient(self) -> (r: Either<T, Fault<D, Never>>)
        ensures
            r == self.transient_split(),
    {
        match self {
            Fault::Domain(d) => Either::Right(Fault::Domain(d)),
            Fault::Transient(t) => Either::Left(t),
            Fault::Invariant(i) => Either::Right(Fault::Invariant(i)),
        }
    }

    /// Takes out the invariant violation; any other fault comes back as it was.
    pub fn extract_invariant(self) -> (r: Either<anyhow::Error, Fault<D, T>>)
        ensures
            r == self.invariant_split(),
    {
        match self {
            Fault::Domain(d) => Either::Right(Fault::Domain(d)),
            Fault::Transient(t) => Either::Right(Fault::Transient(t)),
            Fault::Invariant(i) => Either::Left(i),
        }
    }

    /// Applies `f` to a domain error; other faults pass through unchanged.
    pub fn map_domain<D2>(self, f: impl FnOnce(D) -> D2) -> (r: Fault<D2, T>)
        requires
            self is Domain ==> call_requires(f, (self->Domain_0,)),
        ensures
            self.maps_domain(f, r),
            self is Domain ==> (r is Domain && call_ensures(f, (self->Domain_0,), r->Domain_0)),
            !(self is Domain) ==> (r is Transient) == (self is Transient) && (r is Invariant) == (self is Invariant),
    {
        match self {
            Fault::Domain(d) => Fault::Domain(f(d)),
            Fault::Transient(t) => Fault::Transient(t),
            Fault::Invariant(i) => Fault::Invariant(i),
        }
    }

    /// Applies `f` to a transient error; other faults pass through unchanged.
    pub fn map_transient<T2>(self, f: impl FnOnce(T) -> T2) -> (r: Fault<D, T2>)
        where
            T2: ErrorKind,
        requires
            self is Transient ==> call_requires(f, (self->Transient_0,)),
        ensures
            self.maps_transient(f, r),
            self is Transient ==> (r is Transient && call_ensures(f, (self->Transient_0,), r->Transient_0)),
            !(self is Transient) ==> (r is Domain) == (self is Domain) && (r is Invariant) == (self is Invariant),
    {
        match self {
            Fault::Domain(d) => Fault::Domain(d),
            Fault::Transient(t) => Fault::Transient(f(t)),
            Fault::Invariant(i) => Fault::Invariant(i),
        }
    }

    /// Applies `f` to an invariant violation; other faults pass through unchanged.
    pub fn map_invariant(self, f: impl FnOnce(anyhow::Error) -> anyhow::Error) -> (r: Self)
        requires
            self is Invariant ==> call_requires(f, (self->Invariant_0,)),
        ensures
            self.maps_invariant(f, r),
            self is Invariant ==> (r is Invariant && call_ensures(f, (self->Invariant_0,), r->Invariant_0)),
            !(self is Invariant) ==> r == self,
    {
        match self {
            Fault::Domain(d) => Fault::Domain(d),
            Fault::Transient(t) => Fault::Transient(t),
            Fault::Invariant(i) => Fault::Invariant(f(i)),
        }
    }

    /// Shows a domain error to `f`, which has then run on it and returned;
    /// the fault comes back unchanged.
    pub fn inspect_domain(self, f: impl FnOnce(&D)) -> (r: Self)
        requires
            self is Domain ==> call_requires(f, (&self->Domain_0,)),
        ensures
            r == self,
            self is Domain ==> call_ensures(f, (&self->Domain_0,), ()),
    {
        match &self {
            Fault::Domain(d) => f(d),
            _ => {},
        }
        self
    }

    /// Shows a transient error to `f`, which has then run on it and returned;
    /// the fault comes back unchanged.
    pub fn inspect_transient(self, f: impl FnOnce(&T)) -> (r: Self)
        requires
            self is Transient ==> call_requires(f, (&self->Transient_0,)),
        ensures
            r == self,
            self is Transient ==> call_ensures(f, (&self->Transient_0,), ()),
    {
        match &self {
            Fault::Transient(t) => f(t),
            _ => {},
        }
        self
    }

    /// Shows an invariant violation to `f`, which has then run on it and
    /// returned; the fault comes back unchanged.
    pub fn inspect_invariant(self, f: impl FnOnce(&anyhow::Error)) -> (r: Self)
        requires
            self is Invariant ==> call_requires(f, (&self->Invariant_0,)),
        ensures
            r == self,
            self is Invariant ==> call_ensures(f, (&self->Invariant_0,), ()),
    {
        match &self {
            Fault::Invariant(i) => f(i),
            _ => {},
        }
        self
    }

    /// Converts the domain error into a wider domain type with `From`.
    pub fn upcast<D2>(self) -> (r: Fault<D2, T>)
        where
            D2: From<D>,
        ensures
            self.upcasts_to(r),
    {
        match self {
            Fault::Domain(t) => Fault::Domain(D2::from(t)),
            Fault::Invariant(e) => Fault::Invariant(e),
            Fault::Transient(e) => Fault::Transient(e),
        }
    }

    /// Converts a domain error into an invariant violation; transient errors
    /// and invariant violations pass through unchanged.
    ///
    /// `description` names the invariant that a domain error here breaks.
    pub fn expect_err_not_domain(self, description: &str) -> (r: Fault<Never, T>)
        where
            D: Into<anyhow::Error>,
        ensures
            self.escalates_to(description@, r),
            self is Domain ==> r is Invariant,
            self is Transient ==> r == Fault::<Never, T>::Transient(self->Transient_0),
            self is Invariant ==> r == Fault::<Never, T>::Invariant(self->Invariant_0),
    {
        match self {
            Fault::Domain(d) => Fault::Invariant(make_invariant_violation(description, d)),
            Fault::Transient(t) => Fault::Transient(t),
            Fault::Invariant(i) => Fault::Invariant(i),
        }
    }
}

impl<D: std::fmt::Display, T: ErrorKind> Fault<D, T> {
    /// The text the fault shows: its category's label followed by the text
    /// of the error it holds.
    pub fn to_string(&self) -> (text: String)
        ensures
            match self {
                Fault::Domain(d) => exists|s: String|
                    #[trigger] to_string_from_display_ensures::<D>(d, s) && text@ == "Terminal error: "@ + s@,
                Fault::Transient(t) => exists|shown: Seq<char>|
                    #[trigger] t.shows(shown) && text@ == "Transient failure: "@ + shown,
                Fault::Invariant(i) => exists|s: String|
                    #[trigger] to_string_from_display_ensures::<anyhow::Error>(i, s) && text@ == "Invariant violation: "@ + s@,
            },
    {
        match self {
            Fault::Domain(d) => {
                let shown = d.to_string();
                let mut text = "Terminal error: ".to_owned();
                text.append(shown.as_str());
                text
            },
            Fault::Transient(t) => {
                let shown = t.message();
                let mut text = "Transient failure: ".to_owned();
                text.append(shown.as_str());
                text
            },
            Fault::Invariant(i) => {
                let shown = i.to_string();
                let mut text = "Invariant violation: ".to_owned();
                text.append(shown.as_str());
                text
            },
        }
    }
}

impl<D> Fault<D, Never> {
    /// Wraps a domain error in a fault that admits no transient errors.
    pub fn domain(error: D) -> (r: Self)
        ensures
            r == Fault::<D, Never>::Domain(error),
    {
        Fault::Domain(error)
    }

    /// What widening to the `anyhow::Error` transient slot gives: the same
    /// fault. (A transient `Never` cannot exist, so its image is immaterial.)
    pub open spec fn widened(self) -> Fault<D, anyhow::Error> {
        match self {
            Fault::Domain(d) => Fault::Domain(d),
            Fault::Transient(n) => Fault::Invariant(vstd::pervasive::arbitrary()),
            Fault::Invariant(i) => Fault::Invariant(i),
        }
    }
}

impl<D> Fault<D, anyhow::Error> {
    /// Wraps an error as a transient failure.
    pub fn transient(error: impl Into<anyhow::Error>) -> (r: Self)
        ensures
            r matches Fault::Transient(e) && converts_into(error, e),
    {
        Fault::Transient(error.into())
    }
}

impl<T: ErrorKind> Fault<Never, T> {
    /// What `squash` gives: the same fault under any domain type. (A domain
    /// `Never` cannot exist, so its image is immaterial.)
    pub open spec fn squashed<D>(self) -> Fault<D, T> {
        match self {
            Fault::Domain(n) => Fault::Invariant(vstd::pervasive::arbitrary()),
            Fault::Transient(t) => Fault::Transient(t),
            Fault::Invariant(i) => Fault::Invariant(i),
        }
    }

    /// Gives a fault that has no domain error any domain type.
    pub fn squash<D>(self) -> (r: Fault<D, T>)
        ensures
            r == self.squashed::<D>(),
    {
        match self {
            Fault::Domain(n) => {
                proof {
                    use_type_invariant(&n);
                }
                vstd::pervasive::unreached()
            },
            Fault::Invariant(err) => Fault::Invariant(err),
            Fault::Transient(err) => Fault::Transient(err),
        }
    }
}

impl<D> From<Fault<D, Never>> for Fault<D, anyhow::Error> {
    /// Widens a fault that admits no transient errors; this lets `?` lift it.
    fn from(value: Fault<D, Never>) -> (r: Self)
        ensures
            r == value.widened(),
    {
        match value {
            Fault::Domain(d) => Fault::Domain(d),
            Fault::Invariant(i) => Fault::Invariant(i),
            Fault::Transient(n) => {
                proof {
                    use_type_invariant(&n);
                }
                vstd::pervasive::unreached()
            },
        }
    }
}

impl<D> vstd::std_specs::convert::FromSpecImpl<Fault<D, Never>> for Fault<D, anyhow::Error> {
    open spec fn obeys_from_spec() -> bool {
        true
    }

    open spec fn from_spec(v: Fault<D, Never>) -> Self {
        v.widened()
    }
}

} // verus!
