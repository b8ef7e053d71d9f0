use rust_iss::domain::ApiError;
use rust_iss::handlers::{parse_limit, refresh_targets};
use rust_iss::validation::SpaceSource;

#[test]
fn limit_parameter_is_parsed_and_checked() {
    assert_eq!(parse_limit(None).unwrap(), 20);
    assert_eq!(parse_limit(Some("1")).unwrap(), 1);
    assert_eq!(parse_limit(Some("1000")).unwrap(), 1000);
    assert_eq!(parse_limit(Some("+7")).unwrap(), 7);
    match parse_limit(Some("ten")).unwrap_err() {
        ApiError::Validation(m) => assert_eq!(m, "invalid limit parameter"),
        other => panic!("unexpected error {:?}", other),
    }
    match parse_limit(Some("0")).unwrap_err() {
        ApiError::Validation(m) => assert_eq!(m, "limit must be between 1 and 1000"),
        other => panic!("unexpected error {:?}", other),
    }
    assert!(parse_limit(Some("1001")).is_err());
    assert!(parse_limit(Some("")).is_err());
    assert!(parse_limit(Some(" 5")).is_err());
}

#[test]
fn refresh_without_a_list_takes_every_feed() {
    assert_eq!(
        refresh_targets(None),
        vec![
            SpaceSource::Apod,
            SpaceSource::Neo,
            SpaceSource::Flr,
            SpaceSource::Cme,
            SpaceSource::Spacex
        ]
    );
}

#[test]
fn refresh_list_is_split_trimmed_and_lowercased() {
    assert_eq!(
        refresh_targets(Some("APOD, neo ,moon,,cme")),
        vec![SpaceSource::Apod, SpaceSource::Neo, SpaceSource::Cme]
    );
    assert_eq!(refresh_targets(Some("spacex")), vec![SpaceSource::Spacex]);
    assert_eq!(refresh_targets(Some("flr,flr")), vec![SpaceSource::Flr, SpaceSource::Flr]);
    assert_eq!(refresh_targets(Some("")), vec![]);
    assert_eq!(refresh_targets(Some("apod neo")), vec![]);
    assert_eq!(refresh_targets(Some(",\tSpaceX\n,")), vec![SpaceSource::Spacex]);
}

#[test]
fn limit_parameter_accepts_signs_and_leading_zeros() {
    assert_eq!(parse_limit(Some("0007")).unwrap(), 7);
    assert_eq!(parse_limit(Some("+1000")).unwrap(), 1000);
    for out_of_range in ["-0", "-1", "+0", "9223372036854775807", "-9223372036854775808"] {
        match parse_limit(Some(out_of_range)).unwrap_err() {
            ApiError::Validation(m) => assert_eq!(m, "limit must be between 1 and 1000"),
            other => panic!("unexpected error {:?}", other),
        }
    }
    for no_number in ["9223372036854775808", "-9223372036854775809", "+", "-", "+-1", "1.0", "1_0"] {
        match parse_limit(Some(no_number)).unwrap_err() {
            ApiError::Validation(m) => assert_eq!(m, "invalid limit parameter"),
            other => panic!("unexpected error {:?}", other),
        }
    }
}
