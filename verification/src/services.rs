//! What is done with a fetched payload: reading the fields of a catalog
//! entry, writing entries to the catalog, and preparing the movement trend.
use vstd::prelude::*;
use vstd::string::*;
use crate::calendar::{day_text, moment_at, naive_from_text, utc_from_text};
use crate::domain::{borrowed_text, opt_view, ApiError, ApiErrorView, IssFetchLog, IssFetchLogView, OsdrItem, SpaceCache};
use crate::json::{json_elements, json_integer, json_is_number, json_member, json_rendered, json_text};
use crate::repo::{CacheRepo, Catalog, IssRepo, OsdrRepo, Sighting, StoreError};
use crate::time::{elapsed_millis, spec_elapsed_millis, Timestamp};
use crate::validation::SpaceSource;

verus! {

/// The field names under which the feed has written a dataset's identifier,
/// the most trusted first.
pub open spec fn dataset_id_keys() -> Seq<&'static str> {
    seq!["dataset_id", "id", "uuid", "studyId", "accession", "osdr_id"]
}

pub open spec fn title_keys() -> Seq<&'static str> {
    seq!["title", "name", "label"]
}

pub open spec fn status_keys() -> Seq<&'static str> {
    seq!["status", "state", "lifecycle"]
}

pub open spec fn updated_keys() -> Seq<&'static str> {
    seq!["updated", "updated_at", "modified", "lastUpdated", "timestamp"]
}

/// The text that the member `key` of `v` gives: a string that is not empty,
/// or a number as it is written.
pub open spec fn text_at(v: serde_json::Value, key: Seq<char>) -> Option<Seq<char>> {
    match json_member(v, key) {
        Some(x) => match json_text(x) {
            Some(s) => if s.len() > 0 {
                Some(s)
            } else {
                None
            },
            None => if json_is_number(x) {
                Some(json_rendered(x))
            } else {
                None
            },
        },
        None => None,
    }
}

/// The text of the first of `keys`, from position `from` on, that gives one.
pub open spec fn first_text(v: serde_json::Value, keys: Seq<&str>, from: int) -> Option<Seq<char>>
    decreases keys.len() - from,
{
    if from < 0 || from >= keys.len() {
        None
    } else {
        match text_at(v, keys[from]@) {
            Some(s) => Some(s),
            None => first_text(v, keys, from + 1),
        }
    }
}

/// The moment that the member `key` of `v` gives: a string in one of the
/// two accepted forms, or a whole number of seconds since the epoch, which
/// stands for `now` when the calendar does not reach it.
pub open spec fn time_at(v: serde_json::Value, key: Seq<char>, now: Timestamp) -> Option<Timestamp> {
    match json_member(v, key) {
        Some(x) => match json_text(x) {
            Some(s) => match utc_from_text(s) {
                Some(t) => Some(t),
                None => naive_from_text(s),
            },
            None => match json_integer(x) {
                Some(n) => match moment_at(n) {
                    Some(t) => Some(t),
                    None => Some(now),
                },
                None => None,
            },
        },
        None => None,
    }
}

/// The moment of the first of `keys`, from position `from` on, that gives
/// one.
pub open spec fn first_time(v: serde_json::Value, keys: Seq<&str>, from: int, now: Timestamp) -> Option<
    Timestamp,
>
    decreases keys.len() - from,
{
    if from < 0 || from >= keys.len() {
        None
    } else {
        match time_at(v, keys[from]@, now) {
            Some(t) => Some(t),
            None => first_time(v, keys, from + 1, now),
        }
    }
}

/// The entries of a catalog payload: the payload itself when it is an
/// array, else its member `items` or, failing that, `results` when that is
/// an array, else the payload as the only entry.
pub open spec fn entries_of(json: serde_json::Value) -> Seq<serde_json::Value> {
    if let Some(a) = json_elements(json) {
        a
    } else if let Some(a) = member_elements(json, "items"@) {
        a
    } else if let Some(a) = member_elements(json, "results"@) {
        a
    } else {
        seq![json]
    }
}

/// The elements of the member `key` of `json`, when that member is an array.
pub open spec fn member_elements(json: serde_json::Value, key: Seq<char>) -> Option<
    Seq<serde_json::Value>,
> {
    match json_member(json, key) {
        Some(x) => json_elements(x),
        None => None,
    }
}

/// What one entry of the catalog payload says of a dataset, read at `now`.
pub open spec fn sighting_of(item: serde_json::Value, now: Timestamp) -> Sighting {
    Sighting {
        dataset_id: first_text(item, dataset_id_keys(), 0),
        title: first_text(item, title_keys(), 0),
        status: first_text(item, status_keys(), 0),
        updated_at: first_time(item, updated_keys(), 0, now),
        raw: item,
    }
}

/// The catalog after the entries from position `from` on were written one
/// after the other, stopping at the first that the catalog refuses.
pub open spec fn catalog_after_sync(c: Catalog, items: Seq<serde_json::Value>, from: int, now: Timestamp) -> Catalog
    decreases items.len() - from,
{
    if from < 0 || from >= items.len() {
        c
    } else if c.refusal(sighting_of(items[from], now)).is_some() {
        c
    } else {
        catalog_after_sync(c.after_upsert(sighting_of(items[from], now)), items, from + 1, now)
    }
}

/// The refusal that stops the writing of the entries from position `from`
/// on, if one does.
pub open spec fn sync_refusal(c: Catalog, items: Seq<serde_json::Value>, from: int, now: Timestamp) -> Option<
    StoreError,
>
    decreases items.len() - from,
{
    if from < 0 || from >= items.len() {
        None
    } else if c.refusal(sighting_of(items[from], now)).is_some() {
        c.refusal(sighting_of(items[from], now))
    } else {
        sync_refusal(c.after_upsert(sighting_of(items[from], now)), items, from + 1, now)
    }
}

pub fn dataset_id_key_list() -> (r: Vec<&'static str>)
    ensures
        r@ == dataset_id_keys(),
{
    let r = vec!["dataset_id", "id", "uuid", "studyId", "accession", "osdr_id"];
    assert(r@ =~= dataset_id_keys());
    r
}

pub fn title_key_list() -> (r: Vec<&'static str>)
    ensures
        r@ == title_keys(),
{
    let r = vec!["title", "name", "label"];
    assert(r@ =~= title_keys());
    r
}

pub fn status_key_list() -> (r: Vec<&'static str>)
    ensures
        r@ == status_keys(),
{
    let r = vec!["status", "state", "lifecycle"];
    assert(r@ =~= status_keys());
    r
}

pub fn updated_key_list() -> (r: Vec<&'static str>)
    ensures
        r@ == updated_keys(),
{
    let r = vec!["updated", "updated_at", "modified", "lastUpdated", "timestamp"];
    assert(r@ =~= updated_keys());
    r
}

/// Reads a text field that the feed may have written under any of `keys`:
/// the first key that holds a string that is not empty, or a number, wins.
pub fn extract_string(v: &serde_json::Value, keys: &[&str]) -> (r: Option<String>)
    ensures
        opt_view(r) == first_text(*v, keys@, 0),
{
    let mut i: usize = 0;
    while i < keys.len()
        invariant
            i <= keys@.len(),
            first_text(*v, keys@, 0) == first_text(*v, keys@, i as int),
        decreases keys@.len() - i,
    {
        match crate::json::member(v, keys[i]) {
            Some(x) => {
                match crate::json::text(x) {
                    Some(s) => {
                        if !s.is_empty() {
                            return Some(String::from_str(s));
                        }
                    },
                    None => {
                        if crate::json::is_number(x) {
                            return Some(crate::json::rendered(x));
                        }
                    },
                }
            },
            None => {},
        }
        i = i + 1;
    }
    None
}

/// Reads a time field that the feed may have written under any of `keys`.
/// A string counts when it parses in one of the two accepted forms; a whole
/// number counts as seconds since the epoch, and as `now` when it is out of
/// the calendar's range.
pub fn extract_datetime(v: &serde_json::Value, keys: &[&str], now: Timestamp) -> (r: Option<Timestamp>)
    ensures
        r == first_time(*v, keys@, 0, now),
{
    let mut i: usize = 0;
    while i < keys.len()
        invariant
            i <= keys@.len(),
            first_time(*v, keys@, 0, now) == first_time(*v, keys@, i as int, now),
        decreases keys@.len() - i,
    {
        match crate::json::member(v, keys[i]) {
            Some(x) => {
                match crate::json::text(x) {
                    Some(s) => {
                        let utc = crate::calendar::parse_utc(s);
                        if utc.is_some() {
                            return utc;
                        }
                        let naive = crate::calendar::parse_naive(s);
                        if naive.is_some() {
                            return naive;
                        }
                    },
                    None => {
                        match crate::json::integer(x) {
                            Some(n) => {
                                return match crate::calendar::from_epoch_secs(n) {
                                    Some(t) => Some(t),
                                    None => Some(now),
                                };
                            },
                            None => {},
                        }
                    },
                }
            },
            None => {},
        }
        i = i + 1;
    }
    None
}

fn copy_all(a: &Vec<serde_json::Value>) -> (r: Vec<serde_json::Value>)
    ensures
        r@ == a@,
{
    let mut r: Vec<serde_json::Value> = Vec::new();
    let mut i: usize = 0;
    while i < a.len()
        invariant
            i <= a@.len(),
            r@ == a@.subrange(0, i as int),
        decreases a@.len() - i,
    {
        r.push(a[i].clone());
        assert(r@ =~= a@.subrange(0, i + 1));
        i = i + 1;
    }
    assert(a@.subrange(0, a@.len() as int) =~= a@);
    r
}

fn member_array<'a>(json: &'a serde_json::Value, key: &str) -> (r: Option<&'a Vec<serde_json::Value>>)
    ensures
        match r {
            Some(a) => member_elements(*json, key@) == Some(a@),
            None => member_elements(*json, key@).is_none(),
        },
{
    match crate::json::member(json, key) {
        Some(x) => crate::json::elements(x),
        None => None,
    }
}

/// Takes a catalog payload apart into its entries.
pub fn extract_array(json: &serde_json::Value) -> (r: Vec<serde_json::Value>)
    ensures
        r@ == entries_of(*json),
{
    if let Some(a) = crate::json::elements(json) {
        return copy_all(a);
    }
    if let Some(a) = member_array(json, "items") {
        return copy_all(a);
    }
    if let Some(a) = member_array(json, "results") {
        return copy_all(a);
    }
    let mut r: Vec<serde_json::Value> = Vec::new();
    r.push(json.clone());
    assert(r@ =~= seq![*json]);
    r
}

/// The first and the last day of the `n` days that end on the day of `now`,
/// each written as year, month and day. Nothing when the calendar does not
/// reach one of the two days.
pub fn last_days(now: Timestamp, n: u64) -> (r: Option<(String, String)>)
    ensures
        match r {
            Some((from, to)) => day_text(now.secs, n) == Some(from@) && day_text(now.secs, 0)
                == Some(to@),
            None => day_text(now.secs, n).is_none() || day_text(now.secs, 0).is_none(),
        },
{
    let from = crate::calendar::day_before(now.secs, n);
    let to = crate::calendar::day_before(now.secs, 0);
    match (from, to) {
        (Some(f), Some(t)) => Some((f, t)),
        _ => None,
    }
}

/// What a catalog entry says of a dataset, ready to be written.
pub struct CatalogEntry {
    pub dataset_id: Option<String>,
    pub title: Option<String>,
    pub status: Option<String>,
    pub updated_at: Option<Timestamp>,
    pub raw: serde_json::Value,
}

impl CatalogEntry {
    /// The entry as a sighting.
    pub open spec fn seen(self) -> Sighting {
        Sighting {
            dataset_id: opt_view(self.dataset_id),
            title: opt_view(self.title),
            status: opt_view(self.status),
            updated_at: self.updated_at,
            raw: self.raw,
        }
    }

    /// Reads the fields of one entry of the catalog payload.
    pub fn read(item: serde_json::Value, now: Timestamp) -> (e: CatalogEntry)
        ensures
            e.seen() == sighting_of(item, now),
    {
        let ids = dataset_id_key_list();
        let titles = title_key_list();
        let statuses = status_key_list();
        let updates = updated_key_list();
        let dataset_id = extract_string(&item, ids.as_slice());
        let title = extract_string(&item, titles.as_slice());
        let status = extract_string(&item, statuses.as_slice());
        let updated_at = extract_datetime(&item, updates.as_slice(), now);
        CatalogEntry { dataset_id, title, status, updated_at, raw: item }
    }
}

/// The error that a refusal of the store becomes on its way to the client.
pub open spec fn store_failure(e: StoreError) -> ApiErrorView {
    ApiErrorView::Database(
        match e {
            StoreError::IdsExhausted => "no id left to assign"@,
            StoreError::NegativeLimit => "LIMIT must not be negative"@,
        },
    )
}

pub fn database_error(e: StoreError) -> (r: ApiError)
    ensures
        r@ == store_failure(e),
{
    ApiError::Database(e.describe())
}

/// Keeps the catalog in step with its feed.
pub struct OsdrService {
    pub repo: OsdrRepo,
}

impl OsdrService {
    pub fn new(repo: OsdrRepo) -> (s: OsdrService)
        ensures
            s.repo == repo,
    {
        OsdrService { repo }
    }

    /// Moves the catalog's clock to `now`, then writes every entry of a
    /// fetched catalog payload, in order, and returns how many there were.
    /// The first entry that the catalog refuses ends the run with its error;
    /// the entries before it stay written.
    pub fn sync(&mut self, json: &serde_json::Value, now: Timestamp) -> (res: Result<usize, ApiError>)
        requires
            old(self).repo.wf(),
        ensures
            final(self).repo.wf(),
            final(self).repo.catalog() == catalog_after_sync(
                old(self).repo.catalog().after_advance(now),
                entries_of(*json),
                0,
                now,
            ),
            match sync_refusal(
                old(self).repo.catalog().after_advance(now),
                entries_of(*json),
                0,
                now,
            ) {
                Some(e) => res matches Err(err) && err@ == store_failure(e),
                None => res matches Ok(n) && n == entries_of(*json).len(),
            },
    {
        let items = extract_array(json);
        self.repo.advance(now);
        let ghost start = self.repo.catalog();
        let n = items.len();
        let mut written: usize = 0;
        while written < n
            invariant
                self.repo.wf(),
                written <= n,
                n == items@.len(),
                items@ == entries_of(*json),
                start == old(self).repo.catalog().after_advance(now),
                catalog_after_sync(start, items@, 0, now) == catalog_after_sync(
                    self.repo.catalog(),
                    items@,
                    written as int,
                    now,
                ),
                sync_refusal(start, items@, 0, now) == sync_refusal(
                    self.repo.catalog(),
                    items@,
                    written as int,
                    now,
                ),
            decreases n - written,
        {
            let ghost before = self.repo.catalog();
            let ghost x = sighting_of(items@[written as int], now);
            let entry = CatalogEntry::read(items[written].clone(), now);
            assert(entry.seen() == x);
            let outcome = self.repo.upsert(
                borrowed_text(&entry.dataset_id),
                borrowed_text(&entry.title),
                borrowed_text(&entry.status),
                entry.updated_at,
                entry.raw,
            );
            assert(outcome == before.upsert_result(x));
            match outcome {
                Ok(_) => {},
                Err(e) => {
                    assert(before.refusal(x) == Some(e));
                    return Err(database_error(e));
                },
            }
            written = written + 1;
        }
        Ok(written)
    }

    /// The newest datasets, the newest first, at most `limit` of them.
    pub fn list(&self, limit: i64) -> (res: Result<Vec<&OsdrItem>, ApiError>)
        requires
            self.repo.wf(),
        ensures
            limit < 0 ==> (res matches Err(e) && e@ == store_failure(StoreError::NegativeLimit)),
            limit >= 0 ==> (res matches Ok(v) && v@.len() == (if limit
                < self.repo.catalog().rows.len() {
                limit as int
            } else {
                self.repo.catalog().rows.len() as int
            }) && (forall|j: int|
                0 <= j < v@.len() ==> (#[trigger] v@[j])@ == self.repo.catalog().rows[
                    self.repo.catalog().rows.len() - 1 - j
                ])),
    {
        match self.repo.list(limit) {
            Ok(v) => Ok(v),
            Err(e) => Err(database_error(e)),
        }
    }

    pub fn count(&self) -> (n: i64)
        requires
            self.repo.wf(),
        ensures
            n == self.repo.catalog().rows.len(),
    {
        self.repo.count()
    }
}

/// How a payload writes a number under a given key.
pub enum NumberField {
    /// No such member, or one that is neither a number nor a string.
    Absent,
    /// A JSON number.
    Numeric,
    /// A string, which may or may not spell a number.
    Text(String),
}

pub enum NumberFieldView {
    Absent,
    Numeric,
    Text(Seq<char>),
}

impl View for NumberField {
    type V = NumberFieldView;

    open spec fn view(&self) -> NumberFieldView {
        match self {
            NumberField::Absent => NumberFieldView::Absent,
            NumberField::Numeric => NumberFieldView::Numeric,
            NumberField::Text(s) => NumberFieldView::Text(s@),
        }
    }
}

/// A number counts before a string, and anything else counts as missing.
pub open spec fn number_field_of(payload: serde_json::Value, key: Seq<char>) -> NumberFieldView {
    match json_member(payload, key) {
        Some(x) => if json_is_number(x) {
            NumberFieldView::Numeric
        } else {
            match json_text(x) {
                Some(s) => NumberFieldView::Text(s),
                None => NumberFieldView::Absent,
            }
        },
        None => NumberFieldView::Absent,
    }
}

/// Finds out how a payload writes the number under `key`, so that either
/// encoding can be read.
pub fn number_field(payload: &serde_json::Value, key: &str) -> (r: NumberField)
    ensures
        r@ == number_field_of(*payload, key@),
{
    match crate::json::member(payload, key) {
        Some(x) => {
            if crate::json::is_number(x) {
                NumberField::Numeric
            } else {
                match crate::json::text(x) {
                    Some(s) => NumberField::Text(String::from_str(s)),
                    None => NumberField::Absent,
                }
            }
        },
        None => NumberField::Absent,
    }
}

/// What the movement trend is computed from.
#[derive(Clone, Copy, Debug, PartialEq, Eq, Structural)]
pub enum TrendBasis {
    /// Fewer than two reports: no movement, no distance, no time elapsed,
    /// and no position or time to show.
    Nothing,
    /// The two newest reports: when each was taken and the milliseconds
    /// from the older to the newer, negative when they are out of order.
    Pair { from_time: Timestamp, to_time: Timestamp, elapsed_ms: i128 },
}

/// The views of a list of reports.
pub open spec fn log_views(logs: Seq<&IssFetchLog>) -> Seq<IssFetchLogView> {
    Seq::new(logs.len(), |i: int| logs[i]@)
}

/// The basis of the trend over reports listed newest first.
pub open spec fn trend_basis_of(logs: Seq<IssFetchLogView>) -> TrendBasis {
    if logs.len() < 2 {
        TrendBasis::Nothing
    } else {
        TrendBasis::Pair {
            from_time: logs[1].fetched_at,
            to_time: logs[0].fetched_at,
            elapsed_ms: spec_elapsed_millis(logs[1].fetched_at, logs[0].fetched_at) as i128,
        }
    }
}

/// The reports, newest first, that `find_last_two` hands out.
pub open spec fn last_two_of(rows: Seq<IssFetchLogView>) -> Seq<IssFetchLogView> {
    if rows.len() == 0 {
        Seq::empty()
    } else if rows.len() == 1 {
        seq![rows[0]]
    } else {
        seq![rows[rows.len() - 1], rows[rows.len() - 2]]
    }
}

/// The basis of the movement trend over the newest reports, listed newest
/// first: nothing when the list holds fewer than two.
pub fn trend_basis(logs: &Vec<&IssFetchLog>) -> (b: TrendBasis)
    ensures
        b == trend_basis_of(log_views(logs@)),
        logs@.len() < 2 <==> b == TrendBasis::Nothing,
{
    if logs.len() < 2 {
        return TrendBasis::Nothing;
    }
    let to_time = logs[0].fetched_at;
    let from_time = logs[1].fetched_at;
    TrendBasis::Pair { from_time, to_time, elapsed_ms: elapsed_millis(from_time, to_time) }
}

/// Keeps the satellite's position reports and derives its movement.
pub struct IssService {
    pub repo: IssRepo,
}

impl IssService {
    pub fn new(repo: IssRepo) -> (s: IssService)
        ensures
            s.repo == repo,
    {
        IssService { repo }
    }

    /// Moves the log's clock to `now` and stores a fetched position report.
    pub fn store(&mut self, source_url: &str, json: serde_json::Value, now: Timestamp) -> (res:
        Result<(), ApiError>)
        requires
            old(self).repo.wf(),
        ensures
            final(self).repo.wf(),
            old(self).repo.next_id() < i64::MAX ==> res.is_ok() && final(self).repo.rows() == old(
                self,
            ).repo.rows().push(
                IssFetchLogView {
                    id: old(self).repo.next_id(),
                    fetched_at: crate::repo::later_of(old(self).repo.clock(), now),
                    source_url: source_url@,
                    payload: json,
                },
            ),
            old(self).repo.next_id() == i64::MAX ==> (res matches Err(e) && e@ == store_failure(
                StoreError::IdsExhausted,
            )) && final(self).repo.rows() == old(self).repo.rows(),
    {
        self.repo.advance(now);
        match self.repo.create(source_url, json) {
            Ok(_) => Ok(()),
            Err(e) => Err(database_error(e)),
        }
    }

    pub fn get_last(&self) -> (res: Option<&IssFetchLog>)
        requires
            self.repo.wf(),
        ensures
            self.repo.rows().len() == 0 ==> res.is_none(),
            self.repo.rows().len() > 0 ==> (res matches Some(r) && r@ == self.repo.rows().last()),
    {
        self.repo.find_last()
    }

    /// The basis of the movement trend: the two newest reports, or nothing
    /// when fewer than two are stored.
    pub fn trend_basis(&self) -> (b: TrendBasis)
        requires
            self.repo.wf(),
        ensures
            b == trend_basis_of(last_two_of(self.repo.rows())),
            self.repo.rows().len() < 2 <==> b == TrendBasis::Nothing,
    {
        let logs = self.repo.find_last_two();
        trend_basis(&logs)
    }
}

/// How many days back the search for near-earth objects starts.
pub const NEO_DAYS: u64 = 2;

/// How many days back the search for solar events starts.
pub const DONKI_DAYS: u64 = 5;

/// Keeps the latest report of each space-science feed.
pub struct SpaceCacheService {
    pub repo: CacheRepo,
}

impl SpaceCacheService {
    pub fn new(repo: CacheRepo) -> (s: SpaceCacheService)
        ensures
            s.repo == repo,
    {
        SpaceCacheService { repo }
    }

    /// Moves the log's clock to `now` and stores a fetched report under the
    /// name of its feed.
    pub fn store(&mut self, source: SpaceSource, json: serde_json::Value, now: Timestamp) -> (res:
        Result<(), ApiError>)
        requires
            old(self).repo.wf(),
        ensures
            final(self).repo.wf(),
            old(self).repo.next_id() < i64::MAX ==> res.is_ok() && final(self).repo.rows() == old(
                self,
            ).repo.rows().push(
                crate::domain::SpaceCacheView {
                    id: old(self).repo.next_id(),
                    source: source.spec_name(),
                    fetched_at: crate::repo::later_of(old(self).repo.clock(), now),
                    payload: json,
                },
            ),
            old(self).repo.next_id() == i64::MAX ==> (res matches Err(e) && e@ == store_failure(
                StoreError::IdsExhausted,
            )) && final(self).repo.rows() == old(self).repo.rows(),
    {
        self.repo.advance(now);
        match self.repo.create(source.name(), json) {
            Ok(_) => Ok(()),
            Err(e) => Err(database_error(e)),
        }
    }

    /// The newest report stored under `source`, the name taken letter for
    /// letter.
    pub fn get_latest(&self, source: &str) -> (res: Option<&SpaceCache>)
        requires
            self.repo.wf(),
        ensures
            crate::repo::latest_of(self.repo.rows(), source@, self.repo.rows().len() as int) < 0
                ==> res.is_none(),
            crate::repo::latest_of(self.repo.rows(), source@, self.repo.rows().len() as int) >= 0
                ==> (res matches Some(r) && r@ == self.repo.rows()[crate::repo::latest_of(
                self.repo.rows(),
                source@,
                self.repo.rows().len() as int,
            )]),
    {
        self.repo.find_latest(source)
    }

    /// The days between which near-earth objects are asked for at `now`.
    pub fn neo_range(now: Timestamp) -> (r: Option<(String, String)>)
        ensures
            match r {
                Some((from, to)) => day_text(now.secs, NEO_DAYS) == Some(from@) && day_text(
                    now.secs,
                    0,
                ) == Some(to@),
                None => day_text(now.secs, NEO_DAYS).is_none() || day_text(now.secs, 0).is_none(),
            },
    {
        last_days(now, NEO_DAYS)
    }

    /// The days between which solar events are asked for at `now`.
    pub fn donki_range(now: Timestamp) -> (r: Option<(String, String)>)
        ensures
            match r {
                Some((from, to)) => day_text(now.secs, DONKI_DAYS) == Some(from@) && day_text(
                    now.secs,
                    0,
                ) == Some(to@),
                None => day_text(now.secs, DONKI_DAYS).is_none() || day_text(now.secs, 0).is_none(),
            },
    {
        last_days(now, DONKI_DAYS)
    }
}

/// With fewer than two reports there is nothing to derive a trend from,
/// whatever the reports hold.
pub proof fn lemma_trend_needs_two(logs: Seq<IssFetchLogView>)
    requires
        logs.len() < 2,
    ensures
        trend_basis_of(logs) == TrendBasis::Nothing,
{
}

} // verus!
