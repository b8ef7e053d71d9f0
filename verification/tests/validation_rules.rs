use rust_iss::domain::ApiError;
use rust_iss::validation::{SpaceSource, Validator};

fn validation_message(e: ApiError) -> String {
    match e {
        ApiError::Validation(m) => m,
        other => panic!("expected a validation error, got {:?}", other),
    }
}

#[test]
fn limit_bounds_are_accepted() {
    assert_eq!(Validator::validate_limit(Some(1)).unwrap(), 1);
    assert_eq!(Validator::validate_limit(Some(1000)).unwrap(), 1000);
    assert_eq!(Validator::validate_limit(Some(500)).unwrap(), 500);
}

#[test]
fn limit_outside_bounds_is_rejected() {
    let low = Validator::validate_limit(Some(0)).unwrap_err();
    assert_eq!(validation_message(low), "limit must be between 1 and 1000");
    let high = Validator::validate_limit(Some(1001)).unwrap_err();
    assert_eq!(validation_message(high), "limit must be between 1 and 1000");
    assert!(Validator::validate_limit(Some(-5)).is_err());
    assert!(Validator::validate_limit(Some(i64::MAX)).is_err());
    assert!(Validator::validate_limit(Some(i64::MIN)).is_err());
}

#[test]
fn absent_limit_defaults_to_twenty() {
    assert_eq!(Validator::validate_limit(None).unwrap(), 20);
}

#[test]
fn source_is_accepted_in_any_case() {
    assert!(Validator::validate_source("APOD").is_ok());
    assert!(Validator::validate_source("apod").is_ok());
    assert!(Validator::validate_source("ApOd").is_ok());
    assert!(Validator::validate_source("neo").is_ok());
    assert!(Validator::validate_source("FLR").is_ok());
    assert!(Validator::validate_source("cme").is_ok());
    assert!(Validator::validate_source("SpaceX").is_ok());
}

#[test]
fn unknown_source_is_rejected_with_the_allowed_list() {
    let msg = validation_message(Validator::validate_source("moon").unwrap_err());
    assert_eq!(msg, "source must be one of: apod, neo, flr, cme, spacex");
    for name in ["apod", "neo", "flr", "cme", "spacex"] {
        assert!(msg.contains(name));
    }
    assert!(Validator::validate_source("").is_err());
    assert!(Validator::validate_source(" apod").is_err());
    assert!(Validator::validate_source("iss").is_err());
}

#[test]
fn source_names_round_trip() {
    for s in [
        SpaceSource::Apod,
        SpaceSource::Neo,
        SpaceSource::Flr,
        SpaceSource::Cme,
        SpaceSource::Spacex,
    ] {
        assert_eq!(SpaceSource::from_name(s.name()), Some(s));
    }
    assert_eq!(SpaceSource::Spacex.name(), "spacex");
    assert_eq!(SpaceSource::from_name("APOD"), None);
}

#[test]
fn payload_must_be_object_or_array() {
    let object: serde_json::Value = serde_json::from_str("{\"a\": 1}").unwrap();
    let array: serde_json::Value = serde_json::from_str("[1, 2]").unwrap();
    let number: serde_json::Value = serde_json::from_str("7").unwrap();
    let text: serde_json::Value = serde_json::from_str("\"x\"").unwrap();
    assert!(Validator::validate_json_payload(&object).is_ok());
    assert!(Validator::validate_json_payload(&array).is_ok());
    assert!(Validator::validate_json_payload(&serde_json::Value::Null).is_err());
    assert!(Validator::validate_json_payload(&text).is_err());
    let msg = validation_message(Validator::validate_json_payload(&number).unwrap_err());
    assert_eq!(msg, "payload must be a JSON object or array");
}

#[test]
fn errors_map_to_status_and_body() {
    let cases = [
        (ApiError::Database("down".to_string()), 500, "Database error: down", "Database error: down"),
        (ApiError::Http("timeout".to_string()), 502, "HTTP error: timeout", "HTTP client error: timeout"),
        (ApiError::Validation("bad".to_string()), 400, "Validation error: bad", "Validation error: bad"),
        (ApiError::NotFound, 404, "Resource not found", "Not found"),
        (ApiError::Internal("boom".to_string()), 500, "boom", "Internal error: boom"),
    ];
    for (e, status, body, description) in cases {
        assert_eq!(e.status_code(), status);
        assert_eq!(e.body_message(), body);
        assert_eq!(e.description(), description);
    }
}
