use faultline::{DecodeError, Fault, FaultRepr, FaultVariant, Never};
use serde_json::Value;

#[derive(Debug, Clone, PartialEq, Eq)]
struct TestDomainError {
    code: i64,
    message: String,
}

impl TestDomainError {
    fn with_message(code: i64, message: impl Into<String>) -> Self {
        Self {
            code,
            message: message.into(),
        }
    }
}

const TRANSIENT_MSG: &str = "database connection failed";
const INVARIANT_MSG: &str = "invariant violated";

fn domain_to_json(d: &TestDomainError) -> Value {
    let mut fields = serde_json::Map::new();
    fields.insert("code".to_string(), Value::from(d.code));
    fields.insert("message".to_string(), Value::from(d.message.clone()));
    Value::Object(fields)
}

fn domain_from_json(v: &Value) -> Option<TestDomainError> {
    let fields = v.as_object()?;
    let code = fields.get("code")?.as_i64()?;
    let message = fields.get("message")?.as_str()?.to_string();
    Some(TestDomainError { code, message })
}

fn never_from_json(_: &Value) -> Option<Never> {
    None
}

/// Writes a serialized form as an externally tagged JSON enum.
fn to_json<D>(repr: FaultRepr<&D>, encode: impl Fn(&D) -> Value) -> String {
    let variant = repr.variant();
    let payload = match repr {
        FaultRepr::Domain(d) => encode(d),
        FaultRepr::Transient(s) => Value::String(s),
        FaultRepr::Invariant(s) => Value::String(s),
    };
    let mut object = serde_json::Map::new();
    object.insert(variant.name().to_string(), payload);
    serde_json::to_string(&Value::Object(object)).unwrap()
}

/// Reads an externally tagged JSON enum back into a serialized form.
fn from_json<D>(json: &str, decode: impl Fn(&Value) -> Option<D>) -> Result<FaultRepr<D>, String> {
    let value: Value = serde_json::from_str(json).map_err(|e| e.to_string())?;
    let object = value.as_object().ok_or("expected enum Fault")?;
    if object.len() != 1 {
        return Err("expected enum Fault".to_string());
    }
    let (name, payload) = object.iter().next().unwrap();
    let variant = FaultVariant::from_name(name).ok_or("unknown variant")?;
    match variant {
        FaultVariant::Domain => decode(payload)
            .map(FaultRepr::Domain)
            .ok_or_else(|| "invalid domain error".to_string()),
        FaultVariant::Transient => payload
            .as_str()
            .map(|s| FaultRepr::Transient(s.to_string()))
            .ok_or_else(|| "expected a string".to_string()),
        FaultVariant::Invariant => payload
            .as_str()
            .map(|s| FaultRepr::Invariant(s.to_string()))
            .ok_or_else(|| "expected a string".to_string()),
    }
}

fn decode_never(json: &str) -> Result<Fault<TestDomainError, Never>, String> {
    let repr = from_json(json, domain_from_json)?;
    Fault::<TestDomainError, Never>::from_repr(repr).map_err(|e| format!("{:?}", e))
}

fn decode_anyhow(json: &str) -> Result<Fault<TestDomainError>, String> {
    let repr = from_json(json, domain_from_json)?;
    Fault::<TestDomainError>::from_repr(repr).map_err(|e| format!("{:?}", e))
}

#[test]
fn roundtrip_domain_never() {
    let err = Fault::<TestDomainError, Never>::Domain(TestDomainError::with_message(
        42,
        "test error",
    ));
    let json = to_json(err.to_repr(), domain_to_json);
    let deserialized: Fault<TestDomainError, Never> = decode_never(&json).unwrap();

    match deserialized {
        Fault::Domain(d) => assert_eq!(d, TestDomainError::with_message(42, "test error")),
        _ => panic!("Expected Domain variant"),
    }
}

#[test]
fn roundtrip_invariant_never() {
    let err = Fault::<TestDomainError, Never>::Invariant(anyhow::Error::msg(INVARIANT_MSG));
    let json = to_json(err.to_repr(), domain_to_json);
    let deserialized: Fault<TestDomainError, Never> = decode_never(&json).unwrap();

    match deserialized {
        Fault::Invariant(e) => assert_eq!(e.to_string(), INVARIANT_MSG),
        _ => panic!("Expected Invariant variant"),
    }
}

#[test]
fn roundtrip_domain_anyhow() {
    let err = Fault::<TestDomainError>::Domain(TestDomainError::with_message(42, "test error"));
    let json = to_json(err.to_repr(), domain_to_json);
    let deserialized: Fault<TestDomainError> = decode_anyhow(&json).unwrap();

    match deserialized {
        Fault::Domain(d) => assert_eq!(d, TestDomainError::with_message(42, "test error")),
        _ => panic!("Expected Domain variant"),
    }
}

#[test]
fn roundtrip_transient_anyhow() {
    let err = Fault::<TestDomainError>::Transient(anyhow::Error::msg(TRANSIENT_MSG));
    let json = to_json(err.to_repr(), domain_to_json);
    let deserialized: Fault<TestDomainError> = decode_anyhow(&json).unwrap();

    match deserialized {
        Fault::Transient(e) => assert_eq!(e.to_string(), TRANSIENT_MSG),
        _ => panic!("Expected Transient variant"),
    }
}

#[test]
fn roundtrip_invariant_anyhow() {
    let err = Fault::<TestDomainError>::Invariant(anyhow::Error::msg(INVARIANT_MSG));
    let json = to_json(err.to_repr(), domain_to_json);
    let deserialized: Fault<TestDomainError> = decode_anyhow(&json).unwrap();

    match deserialized {
        Fault::Invariant(e) => assert_eq!(e.to_string(), INVARIANT_MSG),
        _ => panic!("Expected Invariant variant"),
    }
}

#[test]
fn anyhow_preserves_display_string() {
    let err = Fault::<TestDomainError>::Transient(
        anyhow::Error::msg("inner error").context("outer context"),
    );
    let json = to_json(err.to_repr(), domain_to_json);
    let deserialized: Fault<TestDomainError> = decode_anyhow(&json).unwrap();

    match deserialized {
        Fault::Transient(e) => assert_eq!(e.to_string(), "outer context"),
        _ => panic!("Expected Transient variant"),
    }
}

#[test]
fn error_transient_when_never() {
    let err = Fault::<TestDomainError>::Transient(anyhow::Error::msg("some error"));
    let json = to_json(err.to_repr(), domain_to_json);
    let result: Result<Fault<TestDomainError, Never>, _> = decode_never(&json);
    assert!(result.is_err());
}

#[test]
fn error_domain_when_never() {
    let err = Fault::<TestDomainError, Never>::Domain(TestDomainError::with_message(
        42,
        "test error",
    ));
    let json = to_json(err.to_repr(), domain_to_json);
    let result: Result<Fault<Never, Never>, _> = from_json(&json, never_from_json)
        .map_err(|e| e)
        .and_then(|repr| Fault::<Never, Never>::from_repr(repr).map_err(|e| format!("{:?}", e)));
    assert!(result.is_err());
}

#[test]
fn json_shape_is_externally_tagged() {
    let err = Fault::<TestDomainError>::Transient(anyhow::Error::msg("boom"));
    assert_eq!(to_json(err.to_repr(), domain_to_json), r#"{"Transient":"boom"}"#);
    let err = Fault::<TestDomainError, Never>::Domain(TestDomainError::with_message(7, "x"));
    assert_eq!(
        to_json(err.to_repr(), domain_to_json),
        r#"{"Domain":{"code":7,"message":"x"}}"#
    );
}

#[test]
fn decode_rejects_transient_form_without_transient_slot() {
    let repr: FaultRepr<TestDomainError> = FaultRepr::Transient("late".to_string());
    match Fault::<TestDomainError, Never>::from_repr(repr) {
        Err(e) => assert_eq!(e, DecodeError::TransientNotAllowed),
        Ok(_) => panic!("Expected an error"),
    }
}

#[test]
fn decode_builds_errors_that_display_the_text() {
    let repr: FaultRepr<TestDomainError> = FaultRepr::Invariant("stored text".to_string());
    match Fault::<TestDomainError>::from_repr(repr).unwrap() {
        Fault::Invariant(e) => assert_eq!(e.to_string(), "stored text"),
        _ => panic!("Expected Invariant variant"),
    }
    let repr: FaultRepr<TestDomainError> = FaultRepr::Transient("other text".to_string());
    match Fault::<TestDomainError>::from_repr(repr).unwrap() {
        Fault::Transient(e) => assert_eq!(e.to_string(), "other text"),
        _ => panic!("Expected Transient variant"),
    }
}

#[test]
fn decode_then_encode_gives_the_same_form() {
    let repr: FaultRepr<TestDomainError> = FaultRepr::Transient("again".to_string());
    let fault = Fault::<TestDomainError>::from_repr(repr.clone()).unwrap();
    match fault.to_repr() {
        FaultRepr::Transient(s) => assert_eq!(FaultRepr::<TestDomainError>::Transient(s), repr),
        _ => panic!("Expected Transient form"),
    }
}

#[test]
fn variant_tags_by_name_and_index() {
    for v in [FaultVariant::Domain, FaultVariant::Transient, FaultVariant::Invariant] {
        assert_eq!(FaultVariant::from_name(v.name()), Some(v));
        assert_eq!(FaultVariant::from_index(v.index() as u64), Some(v));
    }
    assert_eq!(FaultVariant::Domain.index(), 0);
    assert_eq!(FaultVariant::Transient.index(), 1);
    assert_eq!(FaultVariant::Invariant.index(), 2);
    assert_eq!(FaultVariant::Invariant.name(), "Invariant");
    assert_eq!(FaultVariant::from_name("domain"), None);
    assert_eq!(FaultVariant::from_name(""), None);
    assert_eq!(FaultVariant::from_index(3), None);
}
