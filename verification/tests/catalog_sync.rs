use rust_iss::domain::IssFetchLog;
use rust_iss::repo::{CacheRepo, IssRepo, OsdrRepo};
use rust_iss::services::{
    extract_array, extract_datetime, extract_string, last_days, number_field, trend_basis,
    CatalogEntry, IssService, NumberField, OsdrService, SpaceCacheService, TrendBasis,
};
use rust_iss::time::{elapsed_millis, Timestamp};
use rust_iss::validation::SpaceSource;

fn at(secs: i64) -> Timestamp {
    Timestamp { secs, nanos: 0 }
}

fn json(text: &str) -> serde_json::Value {
    serde_json::from_str(text).unwrap()
}

#[test]
fn first_matching_key_wins() {
    let v = json("{\"uuid\": \"u-1\", \"id\": \"i-1\", \"name\": \"n\"}");
    let keys = ["dataset_id", "id", "uuid"];
    assert_eq!(extract_string(&v, &keys), Some("i-1".to_string()));
    assert_eq!(extract_string(&v, &["uuid", "id"]), Some("u-1".to_string()));
    assert_eq!(extract_string(&v, &["title", "label"]), None);
    assert_eq!(extract_string(&v, &[]), None);
}

#[test]
fn empty_strings_and_other_kinds_are_passed_over() {
    let v = json("{\"a\": \"\", \"b\": null, \"c\": true, \"d\": [1], \"e\": \"found\"}");
    assert_eq!(extract_string(&v, &["a", "b", "c", "d", "e"]), Some("found".to_string()));
    assert_eq!(extract_string(&v, &["a", "b", "c", "d"]), None);
    assert_eq!(extract_string(&json("[1, 2]"), &["a"]), None);
    assert_eq!(extract_string(&json("\"a\""), &["a"]), None);
}

#[test]
fn numbers_are_read_as_written() {
    let v = json("{\"id\": 42, \"x\": -1.5, \"big\": 18446744073709551615}");
    assert_eq!(extract_string(&v, &["id"]), Some("42".to_string()));
    assert_eq!(extract_string(&v, &["x"]), Some("-1.5".to_string()));
    assert_eq!(extract_string(&v, &["big"]), Some("18446744073709551615".to_string()));
}

#[test]
fn datetime_accepts_both_text_forms_and_seconds() {
    let now = at(7);
    let keys = ["updated", "modified"];
    let rfc = json("{\"updated\": \"2024-01-01T00:00:00Z\"}");
    assert_eq!(extract_datetime(&rfc, &keys, now), Some(at(1704067200)));
    let offset = json("{\"updated\": \"2024-01-01T02:00:00.5+02:00\"}");
    assert_eq!(
        extract_datetime(&offset, &keys, now),
        Some(Timestamp { secs: 1704067200, nanos: 500_000_000 })
    );
    let naive = json("{\"updated\": \"2024-01-01 00:00:01\"}");
    assert_eq!(extract_datetime(&naive, &keys, now), Some(at(1704067201)));
    let secs = json("{\"modified\": 1704067200}");
    assert_eq!(extract_datetime(&secs, &keys, now), Some(at(1704067200)));
    let negative = json("{\"modified\": -1}");
    assert_eq!(extract_datetime(&negative, &keys, now), Some(at(-1)));
}

#[test]
fn datetime_passes_over_what_it_cannot_read() {
    let now = at(7);
    let v = json("{\"updated\": \"soon\", \"modified\": \"2024-01-01T00:00:00Z\"}");
    assert_eq!(extract_datetime(&v, &["updated", "modified"], now), Some(at(1704067200)));
    assert_eq!(extract_datetime(&v, &["updated"], now), None);
    let odd = json("{\"a\": 1.5, \"b\": true, \"c\": null}");
    assert_eq!(extract_datetime(&odd, &["a", "b", "c", "d"], now), None);
}

#[test]
fn seconds_out_of_range_stand_for_now() {
    let now = Timestamp { secs: 1_700_000_000, nanos: 12 };
    let v = json("{\"timestamp\": 9223372036854775807, \"updated\": \"2024-01-01T00:00:00Z\"}");
    assert_eq!(extract_datetime(&v, &["timestamp", "updated"], now), Some(now));
}

#[test]
fn payload_is_taken_apart_into_entries() {
    assert_eq!(extract_array(&json("[1, {\"a\": 2}]")), vec![json("1"), json("{\"a\": 2}")]);
    assert_eq!(extract_array(&json("{\"items\": [1, 2], \"results\": [3]}")), vec![json("1"), json("2")]);
    assert_eq!(extract_array(&json("{\"items\": 5, \"results\": [3]}")), vec![json("3")]);
    assert_eq!(extract_array(&json("{\"results\": []}")), Vec::<serde_json::Value>::new());
    let lone = json("{\"id\": \"x\"}");
    assert_eq!(extract_array(&lone), vec![lone.clone()]);
    assert_eq!(extract_array(&json("7")), vec![json("7")]);
}

#[test]
fn entry_reads_every_field() {
    let item = json(
        "{\"accession\": \"OSD-7\", \"name\": \"Mice\", \"state\": \"open\", \"lastUpdated\": 86400}",
    );
    let e = CatalogEntry::read(item.clone(), at(0));
    assert_eq!(e.dataset_id, Some("OSD-7".to_string()));
    assert_eq!(e.title, Some("Mice".to_string()));
    assert_eq!(e.status, Some("open".to_string()));
    assert_eq!(e.updated_at, Some(at(86400)));
    assert_eq!(e.raw, item);
}

#[test]
fn sync_writes_every_entry_and_dedupes_by_key() {
    let mut service = OsdrService::new(OsdrRepo::new());
    let feed = json(
        "{\"items\": [{\"id\": \"a\", \"title\": \"one\"}, {\"title\": \"anon\"}, {\"id\": \"a\", \"title\": \"two\"}]}",
    );
    assert_eq!(service.sync(&feed, at(10)).unwrap(), 3);
    assert_eq!(service.count(), 2);
    let rows = service.list(10).unwrap();
    assert_eq!(rows[0].title, Some("anon".to_string()));
    assert_eq!(rows[0].dataset_id, None);
    assert_eq!(rows[1].title, Some("two".to_string()));
    assert_eq!(rows[1].id, 1);
    assert_eq!(service.sync(&feed, at(20)).unwrap(), 3);
    assert_eq!(service.count(), 3);
    assert!(service.list(-3).is_err());
}

#[test]
fn sync_stops_at_the_first_refusal() {
    let mut service = OsdrService::new(OsdrRepo::starting_at(i64::MAX - 1));
    let feed = json("[{\"id\": \"a\"}, {\"id\": \"a\", \"title\": \"t\"}, {\"id\": \"b\"}, {\"id\": \"a\", \"title\": \"late\"}]");
    let err = service.sync(&feed, at(50)).unwrap_err();
    assert_eq!(err.status_code(), 500);
    assert_eq!(err.body_message(), "Database error: no id left to assign");
    assert_eq!(service.count(), 1);
    let rows = service.list(5).unwrap();
    assert_eq!(rows[0].title, Some("t".to_string()));
    assert_eq!(rows[0].inserted_at, at(50));
}

#[test]
fn trend_needs_two_observations() {
    let mut service = IssService::new(IssRepo::new());
    assert_eq!(service.trend_basis(), TrendBasis::Nothing);
    assert!(service.get_last().is_none());
    service.store("u", json("{\"latitude\": 0, \"longitude\": 0}"), at(1000)).unwrap();
    assert_eq!(service.trend_basis(), TrendBasis::Nothing);
    assert_eq!(service.get_last().unwrap().id, 1);
}

#[test]
fn trend_spans_the_two_newest_observations() {
    let mut service = IssService::new(IssRepo::new());
    service.store("u", json("{}"), at(1)).unwrap();
    service.store("u", json("{\"latitude\": 0, \"longitude\": 0}"), at(1000)).unwrap();
    service.store("u", json("{\"latitude\": 0, \"longitude\": 1}"), at(4600)).unwrap();
    assert_eq!(
        service.trend_basis(),
        TrendBasis::Pair { from_time: at(1000), to_time: at(4600), elapsed_ms: 3_600_000 }
    );
}

#[test]
fn trend_keeps_a_negative_elapsed_time() {
    let older = IssFetchLog {
        id: 1,
        fetched_at: at(500),
        source_url: "u".to_string(),
        payload: json("{}"),
    };
    let newer = IssFetchLog {
        id: 2,
        fetched_at: at(200),
        source_url: "u".to_string(),
        payload: json("{}"),
    };
    assert_eq!(
        trend_basis(&vec![&newer, &older]),
        TrendBasis::Pair { from_time: at(500), to_time: at(200), elapsed_ms: -300_000 }
    );
    assert_eq!(trend_basis(&vec![&newer]), TrendBasis::Nothing);
    assert_eq!(trend_basis(&vec![]), TrendBasis::Nothing);
}

#[test]
fn stored_observations_are_stamped_by_a_forward_clock() {
    let mut service = IssService::new(IssRepo::new());
    service.store("u", json("{}"), at(500)).unwrap();
    service.store("u", json("{}"), at(200)).unwrap();
    assert_eq!(
        service.trend_basis(),
        TrendBasis::Pair { from_time: at(500), to_time: at(500), elapsed_ms: 0 }
    );
}

#[test]
fn elapsed_rounds_toward_zero() {
    let a = Timestamp { secs: 10, nanos: 999_999 };
    let b = Timestamp { secs: 11, nanos: 2_500_000 };
    assert_eq!(elapsed_millis(a, b), 1001);
    assert_eq!(elapsed_millis(b, a), -1001);
    assert_eq!(elapsed_millis(a, a), 0);
    let lo = Timestamp { secs: i64::MIN, nanos: 0 };
    let hi = Timestamp { secs: i64::MAX, nanos: 999_999_999 };
    assert_eq!(elapsed_millis(lo, hi), 18_446_744_073_709_551_615_999);
    assert!(a.not_after(b));
    assert!(!b.not_after(a));
    assert!(a.not_after(a));
}

#[test]
fn coordinates_may_be_numbers_or_text() {
    let p = json("{\"latitude\": 51.5, \"longitude\": \"-0.12\", \"velocity\": null, \"n\": \"x\"}");
    assert!(matches!(number_field(&p, "latitude"), NumberField::Numeric));
    match number_field(&p, "longitude") {
        NumberField::Text(t) => assert_eq!(t, "-0.12"),
        _ => panic!("expected text"),
    }
    assert!(matches!(number_field(&p, "velocity"), NumberField::Absent));
    assert!(matches!(number_field(&p, "altitude"), NumberField::Absent));
    assert!(matches!(number_field(&json("[1]"), "latitude"), NumberField::Absent));
}

#[test]
fn date_ranges_end_today() {
    let noon = at(1710072000);
    assert_eq!(last_days(noon, 5), Some(("2024-03-05".to_string(), "2024-03-10".to_string())));
    assert_eq!(last_days(noon, 0), Some(("2024-03-10".to_string(), "2024-03-10".to_string())));
    assert_eq!(
        SpaceCacheService::neo_range(noon),
        Some(("2024-03-08".to_string(), "2024-03-10".to_string()))
    );
    assert_eq!(
        SpaceCacheService::donki_range(at(1709337599)),
        Some(("2024-02-25".to_string(), "2024-03-01".to_string()))
    );
    assert_eq!(last_days(at(i64::MAX), 1), None);
    assert_eq!(last_days(noon, u64::MAX), None);
}

#[test]
fn cache_service_stores_under_the_feed_name() {
    let mut service = SpaceCacheService::new(CacheRepo::new());
    service.store(SpaceSource::Apod, json("{\"n\": 1}"), at(1)).unwrap();
    service.store(SpaceSource::Spacex, json("{\"n\": 2}"), at(2)).unwrap();
    service.store(SpaceSource::Apod, json("{\"n\": 3}"), at(3)).unwrap();
    let latest = service.get_latest("apod").unwrap();
    assert_eq!(latest.payload, json("{\"n\": 3}"));
    assert_eq!(latest.source, "apod");
    assert_eq!(service.get_latest("spacex").unwrap().id, 2);
    assert!(service.get_latest("Apod").is_none());
    assert!(service.get_latest("flr").is_none());
}
