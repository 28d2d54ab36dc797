use faultline::result_ext::{ResultExt, ResultIntoFaultExt, ResultSquashExt};
use faultline::{Either, Fault, Never};

#[derive(Debug, Clone, PartialEq, Eq)]
enum UserError {
    NotFound(u32),
    Conflict,
}

impl std::fmt::Display for UserError {
    fn fmt(&self, f: &mut std::fmt::Formatter<'_>) -> std::fmt::Result {
        match self {
            UserError::NotFound(id) => f.write_str(&format!("user {} not found", id)),
            UserError::Conflict => f.write_str("conflict"),
        }
    }
}

impl std::error::Error for UserError {}

#[derive(Debug, Clone, PartialEq, Eq)]
enum ApiError {
    User(UserError),
}

impl From<UserError> for ApiError {
    fn from(e: UserError) -> Self {
        ApiError::User(e)
    }
}

#[test]
fn exactly_one_category_holds() {
    let faults: Vec<Fault<UserError>> = vec![
        Fault::Domain(UserError::Conflict),
        Fault::transient(anyhow::Error::msg("timeout")),
        Fault::invariant_violation(anyhow::Error::msg("broken")),
    ];
    for f in &faults {
        let n = [f.is_domain(), f.is_transient(), f.is_invariant()]
            .iter()
            .filter(|b| **b)
            .count();
        assert_eq!(n, 1);
    }
    assert!(faults[0].is_domain());
    assert!(faults[1].is_transient());
    assert!(faults[2].is_invariant());
}

#[test]
fn extract_domain_then_squash_restores() {
    let f: Fault<UserError> = Fault::transient(anyhow::Error::msg("timeout"));
    match f.extract_domain() {
        Either::Right(rest) => match rest.squash::<UserError>() {
            Fault::Transient(e) => assert_eq!(e.to_string(), "timeout"),
            _ => panic!("Expected Transient variant"),
        },
        Either::Left(_) => panic!("Expected the rest of the fault"),
    }
    let f: Fault<UserError> = Fault::Domain(UserError::NotFound(3));
    match f.extract_domain() {
        Either::Left(d) => assert_eq!(d, UserError::NotFound(3)),
        Either::Right(_) => panic!("Expected the domain error"),
    }
}

#[test]
fn extract_transient_then_widen_restores() {
    let f: Fault<UserError> = Fault::Domain(UserError::Conflict);
    match f.extract_transient() {
        Either::Right(rest) => {
            let widened: Fault<UserError> = rest.into();
            match widened {
                Fault::Domain(d) => assert_eq!(d, UserError::Conflict),
                _ => panic!("Expected Domain variant"),
            }
        }
        Either::Left(_) => panic!("Expected the rest of the fault"),
    }
    let f: Fault<UserError> = Fault::transient(anyhow::Error::msg("slow"));
    match f.extract_transient() {
        Either::Left(t) => assert_eq!(t.to_string(), "slow"),
        Either::Right(_) => panic!("Expected the transient error"),
    }
}

#[test]
fn extract_invariant_keeps_other_faults() {
    let f: Fault<UserError, Never> = Fault::domain(UserError::Conflict);
    match f.extract_invariant() {
        Either::Right(Fault::Domain(d)) => assert_eq!(d, UserError::Conflict),
        _ => panic!("Expected the fault back"),
    }
    let f: Fault<UserError, Never> = Fault::invariant_violation(anyhow::Error::msg("bad state"));
    match f.extract_invariant() {
        Either::Left(e) => assert_eq!(e.to_string(), "bad state"),
        _ => panic!("Expected the violation"),
    }
}

#[test]
fn maps_apply_to_their_category_only() {
    let f: Fault<UserError> = Fault::Domain(UserError::NotFound(1));
    match f.map_domain(|d| ApiError::User(d)) {
        Fault::Domain(d) => assert_eq!(d, ApiError::User(UserError::NotFound(1))),
        _ => panic!("Expected Domain variant"),
    }
    let f: Fault<UserError> = Fault::transient(anyhow::Error::msg("t"));
    match f.map_domain(|_| 0u8) {
        Fault::Transient(e) => assert_eq!(e.to_string(), "t"),
        _ => panic!("Expected Transient variant"),
    }
    let f: Fault<UserError> = Fault::transient(anyhow::Error::msg("t"));
    match f.map_transient(|e| e.context("retrying")) {
        Fault::Transient(e) => assert_eq!(e.to_string(), "retrying"),
        _ => panic!("Expected Transient variant"),
    }
    let f: Fault<UserError> = Fault::invariant_violation(anyhow::Error::msg("i"));
    match f.map_invariant(|e| e.context("while saving")) {
        Fault::Invariant(e) => assert_eq!(e.to_string(), "while saving"),
        _ => panic!("Expected Invariant variant"),
    }
    let f: Fault<UserError> = Fault::Domain(UserError::Conflict);
    match f.map_invariant(|e| e.context("unused")) {
        Fault::Domain(d) => assert_eq!(d, UserError::Conflict),
        _ => panic!("Expected Domain variant"),
    }
}

#[test]
fn inspect_returns_the_fault_unchanged() {
    let mut seen = Vec::new();
    let f: Fault<UserError> = Fault::Domain(UserError::NotFound(9));
    let f = f.inspect_domain(|d| seen.push(d.clone()));
    assert_eq!(seen, vec![UserError::NotFound(9)]);
    let f = f.inspect_transient(|_| panic!("not transient"));
    let f = f.inspect_invariant(|_| panic!("not an invariant violation"));
    match f {
        Fault::Domain(d) => assert_eq!(d, UserError::NotFound(9)),
        _ => panic!("Expected Domain variant"),
    }
}

#[test]
fn upcast_converts_the_domain_error() {
    let f: Fault<UserError, Never> = Fault::domain(UserError::Conflict);
    match f.upcast::<ApiError>() {
        Fault::Domain(d) => assert_eq!(d, ApiError::User(UserError::Conflict)),
        _ => panic!("Expected Domain variant"),
    }
}

#[test]
fn expect_err_not_domain_reports_the_invariant() {
    let f: Fault<UserError> = Fault::Domain(UserError::NotFound(5));
    match f.expect_err_not_domain("user exists after creation") {
        Fault::Invariant(e) => {
            assert_eq!(e.to_string(), "user exists after creation: user 5 not found")
        }
        _ => panic!("Expected Invariant variant"),
    }
    let f: Fault<UserError> = Fault::transient(anyhow::Error::msg("net"));
    match f.expect_err_not_domain("unused") {
        Fault::Transient(e) => assert_eq!(e.to_string(), "net"),
        _ => panic!("Expected Transient variant"),
    }
}

#[test]
fn to_string_labels_each_category() {
    let f: Fault<UserError> = Fault::Domain(UserError::NotFound(2));
    assert_eq!(f.to_string(), "Terminal error: user 2 not found");
    let f: Fault<UserError> = Fault::transient(anyhow::Error::msg("timed out"));
    assert_eq!(f.to_string(), "Transient failure: timed out");
    let f: Fault<UserError, Never> = Fault::invariant_violation(anyhow::Error::msg("corrupt"));
    assert_eq!(f.to_string(), "Invariant violation: corrupt");
}

#[test]
fn result_into_fault_wraps_errors() {
    let r: Result<u8, UserError> = Err(UserError::Conflict);
    match r.map_err_into_domain() {
        Err(Fault::Domain(d)) => assert_eq!(d, UserError::Conflict),
        _ => panic!("Expected a domain error"),
    }
    let r: Result<u8, UserError> = Err(UserError::NotFound(4));
    match r.map_err_into_transient() {
        Err(Fault::Transient(e)) => assert_eq!(e.to_string(), "user 4 not found"),
        _ => panic!("Expected a transient error"),
    }
    let r: Result<u8, UserError> = Err(UserError::Conflict);
    match r.map_err_into_invariant("ids are unique") {
        Err(Fault::Invariant(e)) => assert_eq!(e.to_string(), "ids are unique: conflict"),
        _ => panic!("Expected an invariant violation"),
    }
    let r: Result<u8, UserError> = Ok(7);
    assert!(matches!(r.map_err_into_domain(), Ok(7)));
}

#[test]
fn question_mark_widens_never_transient() {
    fn inner() -> Result<u8, Fault<UserError, Never>> {
        Err(Fault::domain(UserError::Conflict))
    }
    fn outer() -> Result<u8, Fault<UserError>> {
        let v = inner()?;
        Ok(v)
    }
    match outer() {
        Err(Fault::Domain(d)) => assert_eq!(d, UserError::Conflict),
        _ => panic!("Expected a domain error"),
    }
}

#[test]
fn result_ext_mirrors_fault_operations() {
    let r: Result<u8, Fault<UserError>> = Err(Fault::Domain(UserError::NotFound(1)));
    match r.map_err_domain(ApiError::from) {
        Err(Fault::Domain(d)) => assert_eq!(d, ApiError::User(UserError::NotFound(1))),
        _ => panic!("Expected a domain error"),
    }
    let r: Result<u8, Fault<UserError>> = Err(Fault::Domain(UserError::Conflict));
    match r.upcast_err::<ApiError>() {
        Err(Fault::Domain(d)) => assert_eq!(d, ApiError::User(UserError::Conflict)),
        _ => panic!("Expected a domain error"),
    }
    let r: Result<u8, Fault<UserError>> = Err(Fault::transient(anyhow::Error::msg("x")));
    match r.map_err_transient(|e| e.context("y")) {
        Err(Fault::Transient(e)) => assert_eq!(e.to_string(), "y"),
        _ => panic!("Expected a transient error"),
    }
    let r: Result<u8, Fault<UserError>> = Err(Fault::invariant_violation(anyhow::Error::msg("x")));
    match r.map_err_invariant(|e| e.context("z")) {
        Err(Fault::Invariant(e)) => assert_eq!(e.to_string(), "z"),
        _ => panic!("Expected an invariant violation"),
    }
    let mut count = 0;
    let r: Result<u8, Fault<UserError>> = Err(Fault::Domain(UserError::Conflict));
    let r = r
        .inspect_err_domain(|_| count += 1)
        .inspect_err_transient(|_| count += 10)
        .inspect_err_invariant(|_| count += 100);
    assert_eq!(count, 1);
    assert!(matches!(r, Err(Fault::Domain(UserError::Conflict))));
}

#[test]
fn result_extract_splits_errors() {
    let r: Result<u8, Fault<UserError>> = Ok(1);
    assert!(matches!(r.extract_err_domain(), Either::Right(Ok(1))));
    let r: Result<u8, Fault<UserError>> = Err(Fault::Domain(UserError::Conflict));
    assert!(matches!(r.extract_err_domain(), Either::Left(UserError::Conflict)));
    let r: Result<u8, Fault<UserError>> = Err(Fault::transient(anyhow::Error::msg("t")));
    assert!(matches!(r.extract_err_domain(), Either::Right(Err(Fault::Transient(_)))));
    let r: Result<u8, Fault<UserError>> = Err(Fault::transient(anyhow::Error::msg("t")));
    assert!(matches!(r.extract_err_transient(), Either::Left(_)));
    let r: Result<u8, Fault<UserError>> = Err(Fault::Domain(UserError::Conflict));
    assert!(matches!(r.extract_err_transient(), Either::Right(Err(Fault::Domain(UserError::Conflict)))));
    let r: Result<u8, Fault<UserError>> = Err(Fault::invariant_violation(anyhow::Error::msg("i")));
    assert!(matches!(r.extract_err_invariant(), Either::Left(_)));
    let r: Result<u8, Fault<UserError>> = Ok(2);
    assert!(matches!(r.extract_err_invariant(), Either::Right(Ok(2))));
}

#[test]
fn result_expect_err_not_domain_and_squash() {
    let r: Result<u8, Fault<UserError>> = Err(Fault::Domain(UserError::Conflict));
    match r.expect_err_not_domain("no conflicts here") {
        Err(Fault::Invariant(e)) => assert_eq!(e.to_string(), "no conflicts here: conflict"),
        _ => panic!("Expected an invariant violation"),
    }
    let r: Result<u8, Fault<Never>> = Err(Fault::transient(anyhow::Error::msg("later")));
    match r.squash_err::<UserError>() {
        Err(Fault::Transient(e)) => assert_eq!(e.to_string(), "later"),
        _ => panic!("Expected a transient error"),
    }
    let r: Result<u8, Fault<Never>> = Ok(3);
    assert!(matches!(r.squash_err::<UserError>(), Ok(3)));
}
