use vstd::prelude::*;

use crate::either::Either;
use crate::errorkind::{displays_exactly, ErrorKind, Never};
use crate::fault::Fault;
use crate::result_ext::{split_err_domain, split_err_invariant, split_err_transient};
use crate::wire::{variant_at, variant_named, FaultRepr, FaultVariant};

verus! {

/// Every fault is in exactly one category: a domain error, a transient
/// error, or an invariant violation.
pub proof fn lemma_exactly_one_category<D, T: ErrorKind>(f: Fault<D, T>)
    ensures
        f is Domain || f is Transient || f is Invariant,
        !(f is Domain && f is Transient),
        !(f is Domain && f is Invariant),
        !(f is Transient && f is Invariant),
{
}

/// Taking the domain error out of a fault loses nothing: either the fault
/// was that domain error, or squashing what is left gives the fault back.
pub proof fn lemma_domain_split_restores<D, T: ErrorKind>(f: Fault<D, T>)
    ensures
        match f.domain_split() {
            Either::Left(d) => f == Fault::<D, T>::Domain(d),
            Either::Right(rest) => !(f is Domain) && rest.squashed::<D>() == f,
        },
{
}

/// Taking the transient error out of a fault loses nothing: either the
/// fault was that transient error, or widening what is left gives the fault
/// back.
pub proof fn lemma_transient_split_restores<D>(f: Fault<D, anyhow::Error>)
    ensures
        match f.transient_split() {
            Either::Left(t) => f == Fault::<D, anyhow::Error>::Transient(t),
            Either::Right(rest) => !(f is Transient) && rest.widened() == f,
        },
{
}

/// Taking the invariant violation out of a fault loses nothing: either the
/// fault was that violation, or it comes back unchanged.
pub proof fn lemma_invariant_split_restores<D, T: ErrorKind>(f: Fault<D, T>)
    ensures
        match f.invariant_split() {
            Either::Left(i) => f == Fault::<D, T>::Invariant(i),
            Either::Right(rest) => !(f is Invariant) && rest == f,
        },
{
}

/// Mapping the domain error leaves the fault in its category.
pub proof fn lemma_map_domain_keeps_category<D, T: ErrorKind, D2, F: FnOnce(D) -> D2>(f: Fault<D, T>, g: F, r: Fault<D2, T>)
    requires
        f.maps_domain(g, r),
    ensures
        (r is Domain) == (f is Domain) && (r is Transient) == (f is Transient) && (r is Invariant) == (f is Invariant),
{
}

/// Mapping the transient error leaves the fault in its category.
pub proof fn lemma_map_transient_keeps_category<D, T: ErrorKind, T2: ErrorKind, F: FnOnce(T) -> T2>(f: Fault<D, T>, g: F, r: Fault<D, T2>)
    requires
        f.maps_transient(g, r),
    ensures
        (r is Domain) == (f is Domain) && (r is Transient) == (f is Transient) && (r is Invariant) == (f is Invariant),
{
}

/// Mapping the invariant violation leaves the fault in its category.
pub proof fn lemma_map_invariant_keeps_category<D, T: ErrorKind, F: FnOnce(anyhow::Error) -> anyhow::Error>(f: Fault<D, T>, g: F, r: Fault<D, T>)
    requires
        f.maps_invariant(g, r),
    ensures
        (r is Domain) == (f is Domain) && (r is Transient) == (f is Transient) && (r is Invariant) == (f is Invariant),
{
}

/// Upcasting the domain type leaves the fault in its category.
pub proof fn lemma_upcast_keeps_category<D, T: ErrorKind, D2: From<D>>(f: Fault<D, T>, r: Fault<D2, T>)
    requires
        f.upcasts_to(r),
    ensures
        (r is Domain) == (f is Domain) && (r is Transient) == (f is Transient) && (r is Invariant) == (f is Invariant),
{
}

/// Treating domain errors as broken invariants leaves no domain error:
/// the result is an invariant violation exactly when the fault was a domain
/// error or a violation, and transient otherwise.
pub proof fn lemma_escalation_leaves_no_domain<D: Into<anyhow::Error>, T: ErrorKind>(
    f: Fault<D, T>,
    description: Seq<char>,
    r: Fault<Never, T>,
)
    requires
        f.escalates_to(description, r),
    ensures
        !(r is Domain),
        r is Invariant <==> (f is Domain || f is Invariant),
        r is Transient <==> f is Transient,
{
}

/// A successful result survives every split of its error untouched.
pub proof fn lemma_ok_survives_splits<OK, D, T: ErrorKind>(v: OK)
    ensures
        split_err_domain(Ok::<OK, Fault<D, T>>(v)) == Either::<D, Result<OK, Fault<Never, T>>>::Right(Ok(v)),
        split_err_transient(Ok::<OK, Fault<D, T>>(v)) == Either::<T, Result<OK, Fault<D, Never>>>::Right(Ok(v)),
        split_err_invariant(Ok::<OK, Fault<D, T>>(v)) == Either::<anyhow::Error, Result<OK, Fault<D, T>>>::Right(Ok(v)),
{
}

/// Serializing a fault and reading it back keeps its category and its
/// domain error, and gives transient errors and invariant violations that
/// display exactly the text the originals display.
pub proof fn lemma_wire_roundtrip<D>(f: Fault<D, anyhow::Error>, repr: FaultRepr<D>, g: Fault<D, anyhow::Error>)
    requires
        f.encoded_by(repr),
        g.decoded_from(repr),
    ensures
        f is Domain ==> g == f,
        f is Transient ==> g is Transient && exists|m: Seq<char>|
            #[trigger] f->Transient_0.shows(m) && displays_exactly(&g->Transient_0, m),
        f is Invariant ==> g is Invariant && exists|m: Seq<char>|
            #[trigger] f->Invariant_0.shows(m) && displays_exactly(&g->Invariant_0, m),
{
    match repr {
        FaultRepr::Transient(m) => {
            assert(f->Transient_0.shows(m@));
        },
        FaultRepr::Invariant(m) => {
            assert(f->Invariant_0.shows(m@));
        },
        FaultRepr::Domain(_) => {},
    }
}

/// A fault that admits no transient errors never serializes as one, so
/// reading back what it serializes to always succeeds.
pub proof fn lemma_never_serializes_transient<D>(f: Fault<D, Never>, repr: FaultRepr<D>)
    requires
        f.encoded_by(repr),
    ensures
        !(repr is Transient),
{
}

/// Serializing a fault that admits no transient errors and reading it back
/// keeps its category and its domain error, and gives an invariant violation
/// that displays exactly the text the original displays.
pub proof fn lemma_wire_roundtrip_no_transient<D>(f: Fault<D, Never>, repr: FaultRepr<D>, g: Fault<D, Never>)
    requires
        f.encoded_by(repr),
        g.decoded_from(repr),
    ensures
        !(f is Transient) && !(g is Transient),
        f is Domain ==> g == f,
        f is Invariant ==> g is Invariant && exists|m: Seq<char>|
            #[trigger] f->Invariant_0.shows(m) && displays_exactly(&g->Invariant_0, m),
{
    match repr {
        FaultRepr::Invariant(m) => {
            assert(f->Invariant_0.shows(m@));
        },
        _ => {},
    }
}

/// Reading a serialized form back and serializing the result again gives
/// the same form: the same tag, the same domain error, the same text.
pub proof fn lemma_decode_then_encode<D>(repr: FaultRepr<D>, g: Fault<D, anyhow::Error>, again: FaultRepr<D>)
    requires
        g.decoded_from(repr),
        g.encoded_by(again),
    ensures
        again.tag() == repr.tag(),
        repr is Domain ==> again == repr,
        repr is Transient ==> again->Transient_0@ == repr->Transient_0@,
        repr is Invariant ==> again->Invariant_0@ == repr->Invariant_0@,
{
    match repr {
        FaultRepr::Transient(m) => {
            let e = g->Transient_0;
            let m2 = again->Transient_0;
            let s = choose|s: String| #[trigger] vstd::string::to_string_from_display_ensures::<anyhow::Error>(&e, s) && s@ == m2@;
            assert(s@ == m@);
        },
        FaultRepr::Invariant(m) => {
            let e = g->Invariant_0;
            let m2 = again->Invariant_0;
            let s = choose|s: String| #[trigger] vstd::string::to_string_from_display_ensures::<anyhow::Error>(&e, s) && s@ == m2@;
            assert(s@ == m@);
        },
        FaultRepr::Domain(_) => {},
    }
}

/// Every tag is found again by its name and by its index, and no other
/// name or index finds it.
pub proof fn lemma_variant_tags_roundtrip(v: FaultVariant, name: Seq<char>, index: int)
    ensures
        variant_named(v.tag_name()) == Some(v),
        variant_at(v.tag_index() as int) == Some(v),
        variant_named(name) == Some(v) ==> name == v.tag_name(),
        variant_at(index) == Some(v) ==> index == v.tag_index(),
{
    reveal_strlit("Domain");
    reveal_strlit("Transient");
    reveal_strlit("Invariant");
    assert("Domain"@.len() == 6 && "Transient"@.len() == 9 && "Invariant"@.len() == 9);
    assert("Transient"@[0] != "Invariant"@[0]);
}

/// `f` gives at most one result for each input.
pub open spec fn single_valued<A, B, F: FnOnce(A) -> B>(f: F) -> bool {
    forall|x: A, y1: B, y2: B| #[trigger] call_ensures(f, (x,), y1) && #[trigger] call_ensures(f, (x,), y2) ==> y1 == y2
}

/// Every result `f` gives is its input.
pub open spec fn returns_input<A, F: FnOnce(A) -> A>(f: F) -> bool {
    forall|x: A, y: A| #[trigger] call_ensures(f, (x,), y) ==> y == x
}

/// Every result `k` gives is one that `h` gives on a result of `g`.
pub open spec fn runs_after<A, B, C, G: FnOnce(A) -> B, H: FnOnce(B) -> C, K: FnOnce(A) -> C>(g: G, h: H, k: K) -> bool {
    forall|x: A, z: C| #[trigger] call_ensures(k, (x,), z) ==> exists|y: B| #[trigger] call_ensures(g, (x,), y) && call_ensures(h, (y,), z)
}

/// Mapping the domain error with a function that returns its input gives
/// the fault back.
pub proof fn lemma_map_domain_identity<D, T: ErrorKind, G: FnOnce(D) -> D>(f: Fault<D, T>, g: G, r: Fault<D, T>)
    requires
        returns_input(g),
        f.maps_domain(g, r),
    ensures
        r == f,
{
    if let Fault::Domain(d) = f {
        assert(call_ensures(g, (d,), r->Domain_0));
    }
}

/// Mapping the transient error with a function that returns its input gives
/// the fault back.
pub proof fn lemma_map_transient_identity<D, T: ErrorKind, H: FnOnce(T) -> T>(f: Fault<D, T>, h: H, r: Fault<D, T>)
    requires
        returns_input(h),
        f.maps_transient(h, r),
    ensures
        r == f,
{
    if let Fault::Transient(t) = f {
        assert(call_ensures(h, (t,), r->Transient_0));
    }
}

/// Mapping the domain error with `g` and then with `h` gives what mapping it
/// once with `h` after `g` gives, when `g` and `h` give one result per input.
pub proof fn lemma_map_domain_composition<D, T: ErrorKind, D2, D3, G: FnOnce(D) -> D2, H: FnOnce(D2) -> D3, K: FnOnce(D) -> D3>(
    f: Fault<D, T>,
    g: G,
    h: H,
    k: K,
    step: Fault<D2, T>,
    twice: Fault<D3, T>,
    once: Fault<D3, T>,
)
    requires
        single_valued(g),
        single_valued(h),
        runs_after(g, h, k),
        f.maps_domain(g, step),
        step.maps_domain(h, twice),
        f.maps_domain(k, once),
    ensures
        twice == once,
{
    if let Fault::Domain(d) = f {
        let y = step->Domain_0;
        let z = twice->Domain_0;
        let z2 = once->Domain_0;
        assert(call_ensures(k, (d,), z2));
        let y2 = choose|y2: D2| #[trigger] call_ensures(g, (d,), y2) && call_ensures(h, (y2,), z2);
        assert(call_ensures(g, (d,), y));
        assert(y2 == y);
        assert(call_ensures(h, (y,), z));
        assert(z2 == z);
    }
}

/// Mapping the domain error and mapping the transient error commute, when
/// both functions give one result per input.
pub proof fn lemma_map_domain_transient_commute<D, T: ErrorKind, D2, T2: ErrorKind, G: FnOnce(D) -> D2, H: FnOnce(T) -> T2>(
    f: Fault<D, T>,
    g: G,
    h: H,
    domain_first: Fault<D2, T>,
    then_transient: Fault<D2, T2>,
    transient_first: Fault<D, T2>,
    then_domain: Fault<D2, T2>,
)
    requires
        single_valued(g),
        single_valued(h),
        f.maps_domain(g, domain_first),
        domain_first.maps_transient(h, then_transient),
        f.maps_transient(h, transient_first),
        transient_first.maps_domain(g, then_domain),
    ensures
        then_transient == then_domain,
{
    match f {
        Fault::Domain(d) => {
            assert(call_ensures(g, (d,), domain_first->Domain_0));
            assert(call_ensures(g, (d,), then_domain->Domain_0));
        },
        Fault::Transient(t) => {
            assert(call_ensures(h, (t,), then_transient->Transient_0));
            assert(call_ensures(h, (t,), transient_first->Transient_0));
        },
        Fault::Invariant(_) => {},
    }
}

/// Upcasting is mapping the domain error with `From::from`, when `from`
/// gives one result per input.
pub proof fn lemma_upcast_is_map_domain_from<D, T: ErrorKind, D2: From<D>>(f: Fault<D, T>, up: Fault<D2, T>, mapped: Fault<D2, T>)
    requires
        single_valued(D2::from),
        f.upcasts_to(up),
        f.maps_domain(D2::from, mapped),
    ensures
        up == mapped,
{
    if let Fault::Domain(d) = f {
        assert(call_ensures(D2::from, (d,), up->Domain_0));
        assert(call_ensures(D2::from, (d,), mapped->Domain_0));
    }
}

/// Upcasting to the same domain type gives the fault back, when `From` from
/// a type to itself returns its input.
pub proof fn lemma_upcast_same_type_identity<D: From<D>, T: ErrorKind>(f: Fault<D, T>, up: Fault<D, T>)
    requires
        returns_input(D::from),
        f.upcasts_to(up),
    ensures
        up == f,
{
    if let Fault::Domain(d) = f {
        assert(call_ensures(D::from, (d,), up->Domain_0));
    }
}

/// The tag of a serialized form is the variant of that form, whatever it
/// carries: Domain is index 0, Transient index 1, Invariant index 2, each
/// under its own name.
pub proof fn lemma_repr_tag_is_its_variant<X>(repr: FaultRepr<X>)
    ensures
        repr is Domain <==> repr.tag() == FaultVariant::Domain,
        repr is Transient <==> repr.tag() == FaultVariant::Transient,
        repr is Invariant <==> repr.tag() == FaultVariant::Invariant,
        repr is Domain ==> repr.tag().tag_index() == 0 && repr.tag().tag_name() == "Domain"@,
        repr is Transient ==> repr.tag().tag_index() == 1 && repr.tag().tag_name() == "Transient"@,
        repr is Invariant ==> repr.tag().tag_index() == 2 && repr.tag().tag_name() == "Invariant"@,
{
}

/// Serializing a fault tags it with its own category: a domain error as
/// Domain, a transient error as Transient, an invariant violation as
/// Invariant.
pub proof fn lemma_encoding_tags_by_category<D, T: ErrorKind>(f: Fault<D, T>, repr: FaultRepr<D>)
    requires
        f.encoded_by(repr),
    ensures
        f is Domain <==> repr.tag() == FaultVariant::Domain,
        f is Transient <==> repr.tag() == FaultVariant::Transient,
        f is Invariant <==> repr.tag() == FaultVariant::Invariant,
        f is Invariant ==> repr.tag().tag_index() == 2 && repr.tag().tag_name() == "Invariant"@,
{
}

/// Mapping the domain error of a domain fault always applies the function:
/// the result holds a result of `g` on the held error. Other faults pass
/// through unchanged.
pub proof fn lemma_map_domain_applies<D, T: ErrorKind, D2, G: FnOnce(D) -> D2>(f: Fault<D, T>, g: G, r: Fault<D2, T>)
    requires
        f.maps_domain(g, r),
    ensures
        f is Domain ==> r is Domain && call_ensures(g, (f->Domain_0,), r->Domain_0),
        f is Transient ==> r == Fault::<D2, T>::Transient(f->Transient_0),
        f is Invariant ==> r == Fault::<D2, T>::Invariant(f->Invariant_0),
{
}

/// Mapping the transient error of a transient fault always applies the
/// function; other faults pass through unchanged.
pub proof fn lemma_map_transient_applies<D, T: ErrorKind, T2: ErrorKind, G: FnOnce(T) -> T2>(f: Fault<D, T>, g: G, r: Fault<D, T2>)
    requires
        f.maps_transient(g, r),
    ensures
        f is Transient ==> r is Transient && call_ensures(g, (f->Transient_0,), r->Transient_0),
        f is Domain ==> r == Fault::<D, T2>::Domain(f->Domain_0),
        f is Invariant ==> r == Fault::<D, T2>::Invariant(f->Invariant_0),
{
}

/// Mapping the invariant violation of an invariant fault always applies the
/// function: the result holds a result of `g` on the held violation, and no
/// other outcome is possible. Other faults pass through unchanged.
pub proof fn lemma_map_invariant_applies<D, T: ErrorKind, G: FnOnce(anyhow::Error) -> anyhow::Error>(f: Fault<D, T>, g: G, r: Fault<D, T>)
    requires
        f.maps_invariant(g, r),
    ensures
        f is Invariant ==> r is Invariant && call_ensures(g, (f->Invariant_0,), r->Invariant_0),
        !(f is Invariant) ==> r == f,
{
}

/// Every result `g` gives differs from its input.
pub open spec fn always_changes<A, F: FnOnce(A) -> A>(g: F) -> bool {
    forall|x: A, y: A| #[trigger] call_ensures(g, (x,), y) ==> y != x
}

/// Mapping an invariant violation with a function that always changes its
/// input changes the fault.
pub proof fn lemma_map_invariant_changes_violation<D, T: ErrorKind, G: FnOnce(anyhow::Error) -> anyhow::Error>(f: Fault<D, T>, g: G, r: Fault<D, T>)
    requires
        always_changes(g),
        f is Invariant,
        f.maps_invariant(g, r),
    ensures
        r != f,
        r is Invariant,
{
    assert(call_ensures(g, (f->Invariant_0,), r->Invariant_0));
}

/// Escalating domain errors passes transient errors and invariant
/// violations through as they are, for every description.
pub proof fn lemma_escalation_passes_through<D: Into<anyhow::Error>, T: ErrorKind>(
    f: Fault<D, T>,
    description: Seq<char>,
    r: Fault<Never, T>,
)
    requires
        f.escalates_to(description, r),
    ensures
        f is Invariant ==> r == Fault::<Never, T>::Invariant(f->Invariant_0),
        f is Transient ==> r == Fault::<Never, T>::Transient(f->Transient_0),
        f is Domain ==> r is Invariant,
{
}

/// A fault that is not a domain error escalates to one and the same result
/// whatever the description.
pub proof fn lemma_escalation_ignores_description_unless_domain<D: Into<anyhow::Error>, T: ErrorKind>(
    f: Fault<D, T>,
    first: Seq<char>,
    r1: Fault<Never, T>,
    second: Seq<char>,
    r2: Fault<Never, T>,
)
    requires
        !(f is Domain),
        f.escalates_to(first, r1),
        f.escalates_to(second, r2),
    ensures
        r1 == r2,
{
}

} // verus!
