use rust_iss::repo::{CacheRepo, IssRepo, OsdrRepo, StoreError};
use rust_iss::time::Timestamp;

fn at(secs: i64) -> Timestamp {
    Timestamp { secs, nanos: 0 }
}

fn json(text: &str) -> serde_json::Value {
    serde_json::from_str(text).unwrap()
}

fn s(text: &str) -> Option<&str> {
    Some(text)
}

#[test]
fn upsert_same_key_twice_keeps_one_row_with_second_title() {
    let mut repo = OsdrRepo::new();
    repo.advance(at(100));
    let first =
        repo.upsert(s("OSD-1"), s("first"), s("draft"), Some(at(5)), json("{\"v\": 1}")).unwrap();
    repo.advance(at(200));
    let second = repo.upsert(s("OSD-1"), s("second"), None, None, json("{\"v\": 2}")).unwrap();
    assert_eq!(first, second);
    assert_eq!(repo.count(), 1);
    let rows = repo.list(10).unwrap();
    assert_eq!(rows.len(), 1);
    assert_eq!(rows[0].id, first);
    assert_eq!(rows[0].dataset_id.as_deref(), s("OSD-1"));
    assert_eq!(rows[0].title.as_deref(), s("second"));
    assert_eq!(rows[0].status.as_deref(), None);
    assert_eq!(rows[0].updated_at, None);
    assert_eq!(rows[0].inserted_at, at(100));
    assert_eq!(rows[0].raw, json("{\"v\": 2}"));
}

#[test]
fn upsert_without_key_twice_makes_two_rows() {
    let mut repo = OsdrRepo::new();
    let a = repo.upsert(None, s("same"), None, None, json("{}")).unwrap();
    let b = repo.upsert(None, s("same"), None, None, json("{}")).unwrap();
    assert_ne!(a, b);
    assert_eq!((a, b), (1, 2));
    assert_eq!(repo.count(), 2);
}

#[test]
fn upsert_updates_the_row_of_its_key_only() {
    let mut repo = OsdrRepo::new();
    repo.advance(at(1));
    repo.upsert(s("a"), s("A"), None, None, json("1")).unwrap();
    repo.advance(at(2));
    repo.upsert(s("b"), s("B"), None, None, json("2")).unwrap();
    repo.advance(at(3));
    repo.upsert(None, s("N"), None, None, json("3")).unwrap();
    repo.advance(at(50));
    let id = repo.upsert(s("b"), s("B2"), s("live"), Some(at(9)), json("4")).unwrap();
    assert_eq!(id, 2);
    assert_eq!(repo.count(), 3);
    let rows = repo.list(1000).unwrap();
    let titles: Vec<Option<&str>> = rows.iter().map(|r| r.title.as_deref()).collect();
    assert_eq!(titles, vec![s("N"), s("B2"), s("A")]);
    assert_eq!(rows[1].inserted_at, at(2));
    assert_eq!(rows[1].status.as_deref(), s("live"));
    assert_eq!(rows[1].updated_at, Some(at(9)));
    assert_eq!(rows[1].raw, json("4"));
    assert_eq!(rows[2].raw, json("1"));
}

#[test]
fn keys_are_compared_letter_for_letter() {
    let mut repo = OsdrRepo::new();
    repo.upsert(s("osd-1"), s("lower"), None, None, json("1")).unwrap();
    repo.upsert(s("OSD-1"), s("upper"), None, None, json("2")).unwrap();
    assert_eq!(repo.count(), 2);
}

#[test]
fn list_is_newest_first_and_bounded() {
    let mut repo = OsdrRepo::new();
    for k in 0..5i64 {
        repo.advance(at(10 * k));
        repo.upsert(None, Some(format!("t{}", k).as_str()), None, None, json("{}")).unwrap();
    }
    let two = repo.list(2).unwrap();
    assert_eq!(two.len(), 2);
    assert_eq!(two[0].title.as_deref(), s("t4"));
    assert_eq!(two[0].inserted_at, at(40));
    assert_eq!(two[1].title.as_deref(), s("t3"));
    assert_eq!(repo.list(0).unwrap().len(), 0);
    assert_eq!(repo.list(5).unwrap().len(), 5);
    assert_eq!(repo.list(i64::MAX).unwrap().len(), 5);
    assert_eq!(repo.list(-1).unwrap_err(), StoreError::NegativeLimit);
}

#[test]
fn clock_never_runs_backwards() {
    let mut repo = OsdrRepo::new();
    repo.advance(at(100));
    repo.upsert(s("a"), None, None, None, json("{}")).unwrap();
    repo.advance(at(99));
    repo.upsert(s("b"), None, None, None, json("{}")).unwrap();
    repo.advance(Timestamp { secs: 100, nanos: 1 });
    repo.upsert(s("c"), None, None, None, json("{}")).unwrap();
    let stamps: Vec<Timestamp> = repo.list(3).unwrap().iter().map(|r| r.inserted_at).collect();
    assert_eq!(stamps, vec![Timestamp { secs: 100, nanos: 1 }, at(100), at(100)]);
}

#[test]
fn store_errors_describe_themselves() {
    assert_eq!(StoreError::IdsExhausted.describe(), "no id left to assign");
    assert_eq!(StoreError::NegativeLimit.describe(), "LIMIT must not be negative");
}

#[test]
fn observations_are_appended_and_read_newest_first() {
    let mut repo = IssRepo::new();
    assert!(repo.find_last().is_none());
    assert!(repo.find_last_two().is_empty());
    repo.advance(at(10));
    let a = repo.create("u", json("{\"n\": 1}")).unwrap();
    assert_eq!(a, 1);
    assert_eq!(repo.find_last_two().len(), 1);
    let b = repo.create("u", json("{\"n\": 2}")).unwrap();
    repo.advance(at(20));
    let c = repo.create("v", json("{\"n\": 3}")).unwrap();
    assert_eq!((b, c), (2, 3));
    let last = repo.find_last().unwrap();
    assert_eq!(last.id, 3);
    assert_eq!(last.source_url, "v");
    assert_eq!(last.fetched_at, at(20));
    assert_eq!(last.payload, json("{\"n\": 3}"));
    let two = repo.find_last_two();
    assert_eq!(two.len(), 2);
    assert_eq!((two[0].id, two[1].id), (3, 2));
    assert_eq!(two[1].fetched_at, at(10));
}

#[test]
fn latest_cache_entry_is_per_source() {
    let mut repo = CacheRepo::new();
    assert!(repo.find_latest("apod").is_none());
    repo.create("apod", json("1")).unwrap();
    repo.create("neo", json("2")).unwrap();
    repo.advance(at(3));
    repo.create("apod", json("3")).unwrap();
    repo.create("neo", json("4")).unwrap();
    let apod = repo.find_latest("apod").unwrap();
    assert_eq!(apod.id, 3);
    assert_eq!(apod.payload, json("3"));
    assert_eq!(apod.source, "apod");
    assert_eq!(apod.fetched_at, at(3));
    assert_eq!(repo.find_latest("neo").unwrap().id, 4);
    assert!(repo.find_latest("APOD").is_none());
    assert!(repo.find_latest("cme").is_none());
}

#[test]
fn store_without_ids_left_refuses_new_rows() {
    let mut log = IssRepo::starting_at(i64::MAX - 1);
    assert_eq!(log.create("u", json("1")), Ok(i64::MAX - 1));
    assert_eq!(log.create("u", json("2")), Err(StoreError::IdsExhausted));
    assert_eq!(log.find_last_two().len(), 1);
    let mut cache = CacheRepo::starting_at(i64::MAX);
    assert_eq!(cache.create("apod", json("1")), Err(StoreError::IdsExhausted));
    assert!(cache.find_latest("apod").is_none());
    let mut catalog = OsdrRepo::starting_at(i64::MAX - 1);
    assert_eq!(catalog.upsert(s("a"), s("one"), None, None, json("1")), Ok(i64::MAX - 1));
    assert_eq!(catalog.upsert(s("b"), None, None, None, json("2")), Err(StoreError::IdsExhausted));
    assert_eq!(catalog.upsert(None, None, None, None, json("2")), Err(StoreError::IdsExhausted));
    assert_eq!(catalog.upsert(s("a"), s("two"), None, None, json("3")), Ok(i64::MAX - 1));
    assert_eq!(catalog.count(), 1);
    assert_eq!(catalog.list(5).unwrap()[0].title.as_deref(), s("two"));
}

#[test]
fn writing_a_keyed_sighting_twice_changes_nothing_more() {
    let mut repo = OsdrRepo::new();
    repo.advance(at(1));
    repo.upsert(None, s("n"), None, None, json("0")).unwrap();
    repo.advance(at(5));
    let a = repo.upsert(s("k"), s("t"), s("s"), Some(at(3)), json("{\"x\": 1}")).unwrap();
    let once: Vec<(i64, Option<String>, Timestamp)> =
        repo.list(10).unwrap().iter().map(|r| (r.id, r.title.clone(), r.inserted_at)).collect();
    repo.advance(at(9));
    let b = repo.upsert(s("k"), s("t"), s("s"), Some(at(3)), json("{\"x\": 1}")).unwrap();
    let twice: Vec<(i64, Option<String>, Timestamp)> =
        repo.list(10).unwrap().iter().map(|r| (r.id, r.title.clone(), r.inserted_at)).collect();
    assert_eq!(a, b);
    assert_eq!(once, twice);
}
