use vstd::prelude::*;
use vstd::string::to_string_from_display_ensures;

use crate::sealed::Sealed;

verus! {

/// Declares `anyhow::Error` to Verus as an opaque type: values of it are
/// carried through faults, and nothing inside one is visible here.
#[verifier::external_type_specification]
#[verifier::external_body]
pub struct ExAnyhowError(anyhow::Error);

/// The transient slot of a fault that can never be filled.
///
/// No value of `Never` can exist: its type invariant is `false`, so Verus
/// refuses every construction, and its only field is private. A
/// `Fault<D, Never>` therefore never holds a transient error.
#[derive(Debug, PartialEq, Eq, PartialOrd, Ord, Hash, Clone, Copy)]
pub struct Never {
    unconstructible: (),
}

impl Never {
    #[verifier::type_invariant]
    pub(crate) open spec fn uninhabited(self) -> bool {
        false
    }

    /// Eliminates an impossible value into any type. The body is unreachable:
    /// no `Never` exists to call it with.
    pub fn absurd<A>(self) -> A {
        proof {
            use_type_invariant(&self);
        }
        vstd::pervasive::unreached()
    }
}

/// `e` shows exactly `text` when displayed: `to_string` on it can give a
/// string if and only if that string's text is `text`.
pub open spec fn displays_exactly(e: &anyhow::Error, text: Seq<char>) -> bool {
    forall|s: String| #[trigger] to_string_from_display_ensures::<anyhow::Error>(e, s) <==> s@ == text
}

/// Calls `anyhow::Error::msg` on an owned message.
///
/// The claim: the error it builds displays as exactly the message (anyhow
/// wraps the message in `MessageError`, whose `Display` forwards to the
/// message, and the non-alternate form prints nothing else). What else the
/// error carries, such as a captured backtrace, is not stated.
#[verifier::external_body]
pub(crate) fn error_from_message(message: String) -> (e: anyhow::Error)
    ensures
        displays_exactly(&e, message@),
{
    anyhow::Error::msg(message)
}

/// The kinds of error that can fill the transient slot of a `Fault`:
/// `anyhow::Error`, or `Never` when transient failures are impossible.
pub trait ErrorKind: Sealed + Into<anyhow::Error> {
    /// `text` is a text this error shows when displayed.
    spec fn shows(&self, text: Seq<char>) -> bool;

    /// The text this error shows when displayed.
    fn message(&self) -> (text: String)
        ensures
            self.shows(text@),
    ;
}

impl Sealed for Never {}

impl Sealed for anyhow::Error {}

impl ErrorKind for Never {
    open spec fn shows(&self, text: Seq<char>) -> bool {
        false
    }

    fn message(&self) -> (text: String) {
        proof {
            use_type_invariant(self);
        }
        vstd::pervasive::unreached()
    }
}

impl ErrorKind for anyhow::Error {
    open spec fn shows(&self, text: Seq<char>) -> bool {
        exists|s: String| #[trigger] to_string_from_display_ensures::<anyhow::Error>(self, s) && s@ == text
    }

    fn message(&self) -> (text: String) {
        self.to_string()
    }
}

impl From<Never> for anyhow::Error {
    fn from(never: Never) -> (e: anyhow::Error) {
        proof {
            use_type_invariant(&never);
        }
        vstd::pervasive::unreached()
    }
}

impl vstd::std_specs::convert::FromSpecImpl<Never> for anyhow::Error {
    open spec fn obeys_from_spec() -> bool {
        true
    }

    open spec fn from_spec(v: Never) -> anyhow::Error {
        vstd::pervasive::arbitrary()
    }
}

} // verus!
