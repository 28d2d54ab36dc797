use vstd::prelude::*;

use crate::errorkind::{displays_exactly, error_from_message, ErrorKind, Never};
use crate::fault::Fault;

verus! {

/// The tag of a fault's serialized form: which category it is in.
///
/// Domain errors are serialized structurally; transient errors and invariant
/// violations only by their display text.
#[derive(Debug, Clone, Copy, PartialEq, Eq, Structural)]
pub enum FaultVariant {
    Domain,
    Transient,
    Invariant,
}

/// The tag a variant index selects, if any.
pub open spec fn variant_at(index: int) -> Option<FaultVariant> {
    if index == 0 {
        Some(FaultVariant::Domain)
    } else if index == 1 {
        Some(FaultVariant::Transient)
    } else if index == 2 {
        Some(FaultVariant::Invariant)
    } else {
        None
    }
}

/// The tag a variant name selects, if any.
pub open spec fn variant_named(name: Seq<char>) -> Option<FaultVariant> {
    if name == "Domain"@ {
        Some(FaultVariant::Domain)
    } else if name == "Transient"@ {
        Some(FaultVariant::Transient)
    } else if name == "Invariant"@ {
        Some(FaultVariant::Invariant)
    } else {
        None
    }
}

impl FaultVariant {
    /// The position of the variant in the serialized enum.
    pub open spec fn tag_index(self) -> u32 {
        match self {
            FaultVariant::Domain => 0,
            FaultVariant::Transient => 1,
            FaultVariant::Invariant => 2,
        }
    }

    /// The name of the variant in the serialized enum.
    pub open spec fn tag_name(self) -> Seq<char> {
        match self {
            FaultVariant::Domain => "Domain"@,
            FaultVariant::Transient => "Transient"@,
            FaultVariant::Invariant => "Invariant"@,
        }
    }

    pub fn index(&self) -> (r: u32)
        ensures
            r == self.tag_index(),
    {
        match self {
            FaultVariant::Domain => 0,
            FaultVariant::Transient => 1,
            FaultVariant::Invariant => 2,
        }
    }

    pub fn name(&self) -> (r: &'static str)
        ensures
            r@ == self.tag_name(),
    {
        match self {
            FaultVariant::Domain => "Domain",
            FaultVariant::Transient => "Transient",
            FaultVariant::Invariant => "Invariant",
        }
    }

    /// Identifies a variant by its position; `None` for any other index.
    pub fn from_index(index: u64) -> (r: Option<FaultVariant>)
        ensures
            r == variant_at(index as int),
    {
        if index == 0 {
            Some(FaultVariant::Domain)
        } else if index == 1 {
            Some(FaultVariant::Transient)
        } else if index == 2 {
            Some(FaultVariant::Invariant)
        } else {
            None
        }
    }

    /// Identifies a variant by its name; `None` for any other text.
    pub fn from_name(name: &str) -> (r: Option<FaultVariant>)
        ensures
            r == variant_named(name@),
    {
        let name = name.to_owned();
        if name == "Domain".to_owned() {
            Some(FaultVariant::Domain)
        } else if name == "Transient".to_owned() {
            Some(FaultVariant::Transient)
        } else if name == "Invariant".to_owned() {
            Some(FaultVariant::Invariant)
        } else {
            None
        }
    }
}

/// The serialized form of a fault: the domain error as it is, transient
/// errors and invariant violations as their display text.
#[derive(Debug, Clone, PartialEq, Eq)]
pub enum FaultRepr<X> {
    Domain(X),
    Transient(String),
    Invariant(String),
}

impl<X> FaultRepr<X> {
    /// The tag of this form.
    pub open spec fn tag(self) -> FaultVariant {
        match self {
            FaultRepr::Domain(_) => FaultVariant::Domain,
            FaultRepr::Transient(_) => FaultVariant::Transient,
            FaultRepr::Invariant(_) => FaultVariant::Invariant,
        }
    }

    pub fn variant(&self) -> (r: FaultVariant)
        ensures
            r == self.tag(),
            self is Domain <==> r == FaultVariant::Domain,
            self is Transient <==> r == FaultVariant::Transient,
            self is Invariant <==> r == FaultVariant::Invariant,
    {
        match self {
            FaultRepr::Domain(_) => FaultVariant::Domain,
            FaultRepr::Transient(_) => FaultVariant::Transient,
            FaultRepr::Invariant(_) => FaultVariant::Invariant,
        }
    }
}

/// The owned form that a borrowed serialized form stands for.
pub open spec fn owned_repr<D>(repr: FaultRepr<&D>) -> FaultRepr<D> {
    match repr {
        FaultRepr::Domain(d) => FaultRepr::Domain(*d),
        FaultRepr::Transient(m) => FaultRepr::Transient(m),
        FaultRepr::Invariant(m) => FaultRepr::Invariant(m),
    }
}

/// Why a serialized fault could not be turned back into a fault.
#[derive(Debug, Clone, Copy, PartialEq, Eq, Structural)]
pub enum DecodeError {
    /// The form is a transient error, but the fault type admits none.
    TransientNotAllowed,
}

impl<D, T: ErrorKind> Fault<D, T> {
    /// `repr` is a serialized form of this fault: the same category, the
    /// same domain error, or a text that the transient error or invariant
    /// violation displays.
    pub open spec fn encoded_by(self, repr: FaultRepr<D>) -> bool {
        match self {
            Fault::Domain(d) => repr == FaultRepr::<D>::Domain(d),
            Fault::Transient(t) => repr matches FaultRepr::Transient(m) && t.shows(m@),
            Fault::Invariant(i) => repr matches FaultRepr::Invariant(m) && i.shows(m@),
        }
    }

    /// The serialized form of this fault.
    pub fn to_repr(&self) -> (r: FaultRepr<&D>)
        ensures
            self.encoded_by(owned_repr(r)),
    {
        match self {
            Fault::Domain(d) => FaultRepr::Domain(d),
            Fault::Transient(t) => FaultRepr::Transient(t.message()),
            Fault::Invariant(i) => FaultRepr::Invariant(i.message()),
        }
    }
}

impl<D> Fault<D, anyhow::Error> {
    /// This fault is what `repr` decodes to: the same category, the same
    /// domain error, or an error that displays exactly the serialized text.
    pub open spec fn decoded_from(self, repr: FaultRepr<D>) -> bool {
        match repr {
            FaultRepr::Domain(d) => self == Fault::<D, anyhow::Error>::Domain(d),
            FaultRepr::Transient(m) => self matches Fault::Transient(e) && displays_exactly(&e, m@),
            FaultRepr::Invariant(m) => self matches Fault::Invariant(e) && displays_exactly(&e, m@),
        }
    }

    /// Turns a serialized form back into a fault; every form is accepted.
    pub fn from_repr(repr: FaultRepr<D>) -> (r: Result<Self, DecodeError>)
        ensures
            r matches Ok(f) && f.decoded_from(repr),
    {
        match repr {
            FaultRepr::Domain(d) => Ok(Fault::Domain(d)),
            FaultRepr::Transient(m) => Ok(Fault::Transient(error_from_message(m))),
            FaultRepr::Invariant(m) => Ok(Fault::Invariant(error_from_message(m))),
        }
    }
}

impl<D> Fault<D, Never> {
    /// This fault is what `repr` decodes to: the same domain error, or an
    /// invariant violation that displays exactly the serialized text.
    pub open spec fn decoded_from(self, repr: FaultRepr<D>) -> bool {
        match repr {
            FaultRepr::Domain(d) => self == Fault::<D, Never>::Domain(d),
            FaultRepr::Transient(_) => false,
            FaultRepr::Invariant(m) => self matches Fault::Invariant(e) && displays_exactly(&e, m@),
        }
    }

    /// Turns a serialized form back into a fault that admits no transient
    /// errors; a transient form is refused.
    pub fn from_repr(repr: FaultRepr<D>) -> (r: Result<Self, DecodeError>)
        ensures
            repr is Transient ==> r == Err::<Self, DecodeError>(DecodeError::TransientNotAllowed),
            !(repr is Transient) ==> (r matches Ok(f) && f.decoded_from(repr)),
    {
        match repr {
            FaultRepr::Domain(d) => Ok(Fault::Domain(d)),
            FaultRepr::Transient(_) => Err(DecodeError::TransientNotAllowed),
            FaultRepr::Invariant(m) => Ok(Fault::Invariant(error_from_message(m))),
        }
    }
}

} // verus!
