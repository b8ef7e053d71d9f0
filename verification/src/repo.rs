//! The ingestion store: an append-only log per time-series feed and a
//! catalog that keeps one row per natural key. Each store assigns ids and
//! timestamps itself, from a counter and a clock that only move forward.
use vstd::prelude::*;
use vstd::string::*;
use crate::domain::{opt_str_view, owned_text, IssFetchLog, IssFetchLogView, OsdrItem, OsdrItemView, SpaceCache, SpaceCacheView};
use crate::text::same_text;
use crate::time::Timestamp;

verus! {

/// Why the store refused an operation.
#[derive(Clone, Copy, Debug, PartialEq, Eq, Structural)]
pub enum StoreError {
    /// Every id has been handed out.
    IdsExhausted,
    /// A listing was asked for with a negative bound.
    NegativeLimit,
}

impl StoreError {
    pub fn describe(self) -> (msg: String)
        ensures
            msg@ == (match self {
                StoreError::IdsExhausted => "no id left to assign"@,
                StoreError::NegativeLimit => "LIMIT must not be negative"@,
            }),
    {
        match self {
            StoreError::IdsExhausted => String::from_str("no id left to assign"),
            StoreError::NegativeLimit => String::from_str("LIMIT must not be negative"),
        }
    }
}

/// The moment before every other, at which a new store's clock stands.
pub open spec fn dawn() -> Timestamp {
    Timestamp { secs: i64::MIN, nanos: 0 }
}

/// The later of two moments; the first when neither is later.
pub open spec fn later_of(clock: Timestamp, now: Timestamp) -> Timestamp {
    if clock.spec_not_after(now) {
        now
    } else {
        clock
    }
}

fn later(clock: Timestamp, now: Timestamp) -> (r: Timestamp)
    ensures
        r == later_of(clock, now),
{
    if clock.not_after(now) {
        now
    } else {
        clock
    }
}

/// The satellite's position reports, oldest first.
pub struct IssRepo {
    rows: Vec<IssFetchLog>,
    next_id: i64,
    clock: Timestamp,
}

impl IssRepo {
    pub closed spec fn rows(&self) -> Seq<IssFetchLogView> {
        Seq::new(self.rows@.len(), |i: int| self.rows@[i]@)
    }

    pub closed spec fn next_id(&self) -> i64 {
        self.next_id
    }

    pub closed spec fn clock(&self) -> Timestamp {
        self.clock
    }

    /// Ids grow along the log and stay below the next id to hand out.
    pub open spec fn wf(&self) -> bool {
        &&& 1 <= self.next_id()
        &&& self.rows().len() < self.next_id()
        &&& forall|i: int| 0 <= i < self.rows().len() ==> (#[trigger] self.rows()[i]).id < self.next_id()
        &&& forall|i: int, j: int|
            0 <= i < j < self.rows().len() ==> (#[trigger] self.rows()[i]).id < (
            #[trigger] self.rows()[j]).id
    }

    pub fn new() -> (r: IssRepo)
        ensures
            r.wf(),
            r.rows() == Seq::<IssFetchLogView>::empty(),
            r.next_id() == 1,
            r.clock() == dawn(),
    {
        IssRepo::starting_at(1)
    }

    /// An empty log whose first report gets the id `first_id`.
    pub fn starting_at(first_id: i64) -> (r: IssRepo)
        requires
            first_id >= 1,
        ensures
            r.wf(),
            r.rows() == Seq::<IssFetchLogView>::empty(),
            r.next_id() == first_id,
            r.clock() == dawn(),
    {
        let r = IssRepo {
            rows: Vec::new(),
            next_id: first_id,
            clock: Timestamp { secs: i64::MIN, nanos: 0 },
        };
        assert(r.rows() =~= Seq::<IssFetchLogView>::empty());
        r
    }

    /// Moves the store's clock to `now`, unless that would turn it back.
    pub fn advance(&mut self, now: Timestamp)
        ensures
            final(self).clock() == later_of(old(self).clock(), now),
            final(self).rows() == old(self).rows(),
            final(self).next_id() == old(self).next_id(),
    {
        self.clock = later(self.clock, now);
    }

    /// Appends a report, stamped with the store's clock, and returns its id.
    /// Nothing already stored changes. Fails only when no id is left.
    pub fn create(&mut self, source_url: &str, payload: serde_json::Value) -> (res: Result<
        i64,
        StoreError,
    >)
        requires
            old(self).wf(),
        ensures
            final(self).wf(),
            final(self).clock() == old(self).clock(),
            old(self).next_id() < i64::MAX ==> res == Ok::<i64, StoreError>(old(self).next_id())
                && final(self).next_id() == old(self).next_id() + 1 && final(self).rows() == old(
                self,
            ).rows().push(
                IssFetchLogView {
                    id: old(self).next_id(),
                    fetched_at: old(self).clock(),
                    source_url: source_url@,
                    payload,
                },
            ),
            old(self).next_id() == i64::MAX ==> res == Err::<i64, StoreError>(
                StoreError::IdsExhausted,
            ) && final(self).rows() == old(self).rows() && final(self).next_id() == old(
                self,
            ).next_id(),
    {
        if self.next_id == i64::MAX {
            return Err(StoreError::IdsExhausted);
        }
        let id: i64 = self.next_id;
        let fetched_at = self.clock;
        let ghost before = self.rows();
        let ghost row = IssFetchLogView { id, fetched_at, source_url: source_url@, payload };
        self.rows.push(
            IssFetchLog { id, fetched_at, source_url: String::from_str(source_url), payload },
        );
        self.next_id = id + 1;
        assert(self.rows() =~= before.push(row));
        Ok(id)
    }

    /// The newest report, if there is one.
    pub fn find_last(&self) -> (res: Option<&IssFetchLog>)
        requires
            self.wf(),
        ensures
            self.rows().len() == 0 ==> res.is_none(),
            self.rows().len() > 0 ==> (res matches Some(r) && r@ == self.rows().last()),
    {
        let n = self.rows.len();
        if n == 0 {
            None
        } else {
            Some(&self.rows[n - 1])
        }
    }

    /// The two newest reports, the newest first; fewer when fewer are stored.
    pub fn find_last_two(&self) -> (res: Vec<&IssFetchLog>)
        requires
            self.wf(),
        ensures
            res@.len() == (if self.rows().len() < 2 {
                self.rows().len()
            } else {
                2
            }),
            forall|j: int|
                0 <= j < res@.len() ==> (#[trigger] res@[j])@ == self.rows()[self.rows().len() - 1
                    - j],
    {
        let n = self.rows.len();
        let mut out: Vec<&IssFetchLog> = Vec::new();
        if n >= 1 {
            out.push(&self.rows[n - 1]);
        }
        if n >= 2 {
            out.push(&self.rows[n - 2]);
        }
        out
    }
}

/// The reports of the space-science feeds, oldest first, all feeds in one log.
pub struct CacheRepo {
    rows: Vec<SpaceCache>,
    next_id: i64,
    clock: Timestamp,
}

/// The position of the newest of the first `upto` rows that belongs to
/// `source`, or -1 when none of them does.
pub open spec fn latest_of(rows: Seq<SpaceCacheView>, source: Seq<char>, upto: int) -> int
    decreases upto,
{
    if upto <= 0 || upto > rows.len() {
        -1
    } else if rows[upto - 1].source == source {
        upto - 1
    } else {
        latest_of(rows, source, upto - 1)
    }
}

impl CacheRepo {
    pub closed spec fn rows(&self) -> Seq<SpaceCacheView> {
        Seq::new(self.rows@.len(), |i: int| self.rows@[i]@)
    }

    pub closed spec fn next_id(&self) -> i64 {
        self.next_id
    }

    pub closed spec fn clock(&self) -> Timestamp {
        self.clock
    }

    /// Ids grow along the log and stay below the next id to hand out.
    pub open spec fn wf(&self) -> bool {
        &&& 1 <= self.next_id()
        &&& self.rows().len() < self.next_id()
        &&& forall|i: int| 0 <= i < self.rows().len() ==> (#[trigger] self.rows()[i]).id < self.next_id()
        &&& forall|i: int, j: int|
            0 <= i < j < self.rows().len() ==> (#[trigger] self.rows()[i]).id < (
            #[trigger] self.rows()[j]).id
    }

    pub fn new() -> (r: CacheRepo)
        ensures
            r.wf(),
            r.rows() == Seq::<SpaceCacheView>::empty(),
            r.next_id() == 1,
            r.clock() == dawn(),
    {
        CacheRepo::starting_at(1)
    }

    /// An empty log whose first report gets the id `first_id`.
    pub fn starting_at(first_id: i64) -> (r: CacheRepo)
        requires
            first_id >= 1,
        ensures
            r.wf(),
            r.rows() == Seq::<SpaceCacheView>::empty(),
            r.next_id() == first_id,
            r.clock() == dawn(),
    {
        let r = CacheRepo {
            rows: Vec::new(),
            next_id: first_id,
            clock: Timestamp { secs: i64::MIN, nanos: 0 },
        };
        assert(r.rows() =~= Seq::<SpaceCacheView>::empty());
        r
    }

    /// Moves the store's clock to `now`, unless that would turn it back.
    pub fn advance(&mut self, now: Timestamp)
        ensures
            final(self).clock() == later_of(old(self).clock(), now),
            final(self).rows() == old(self).rows(),
            final(self).next_id() == old(self).next_id(),
    {
        self.clock = later(self.clock, now);
    }

    /// Appends a report of `source`, stamped with the store's clock, and
    /// returns its id. Nothing already stored changes. Fails only when no id
    /// is left.
    pub fn create(&mut self, source: &str, payload: serde_json::Value) -> (res: Result<
        i64,
        StoreError,
    >)
        requires
            old(self).wf(),
        ensures
            final(self).wf(),
            final(self).clock() == old(self).clock(),
            old(self).next_id() < i64::MAX ==> res == Ok::<i64, StoreError>(old(self).next_id())
                && final(self).next_id() == old(self).next_id() + 1 && final(self).rows() == old(
                self,
            ).rows().push(
                SpaceCacheView {
                    id: old(self).next_id(),
                    source: source@,
                    fetched_at: old(self).clock(),
                    payload,
                },
            ),
            old(self).next_id() == i64::MAX ==> res == Err::<i64, StoreError>(
                StoreError::IdsExhausted,
            ) && final(self).rows() == old(self).rows() && final(self).next_id() == old(
                self,
            ).next_id(),
    {
        if self.next_id == i64::MAX {
            return Err(StoreError::IdsExhausted);
        }
        let id: i64 = self.next_id;
        let fetched_at = self.clock;
        let ghost before = self.rows();
        let ghost row = SpaceCacheView { id, source: source@, fetched_at, payload };
        self.rows.push(SpaceCache { id, source: String::from_str(source), fetched_at, payload });
        self.next_id = id + 1;
        assert(self.rows() =~= before.push(row));
        Ok(id)
    }

    /// The newest report of `source`, if it has one. The name must match
    /// letter for letter.
    pub fn find_latest(&self, source: &str) -> (res: Option<&SpaceCache>)
        requires
            self.wf(),
        ensures
            latest_of(self.rows(), source@, self.rows().len() as int) < 0 ==> res.is_none(),
            latest_of(self.rows(), source@, self.rows().len() as int) >= 0 ==> (res matches Some(r)
                && r@ == self.rows()[latest_of(self.rows(), source@, self.rows().len() as int)]),
    {
        let mut k: usize = self.rows.len();
        while k > 0
            invariant
                k <= self.rows@.len(),
                self.rows().len() == self.rows@.len(),
                latest_of(self.rows(), source@, self.rows().len() as int) == latest_of(
                    self.rows(),
                    source@,
                    k as int,
                ),
            decreases k,
        {
            assert(self.rows()[k - 1] == self.rows@[k - 1]@);
            if same_text(self.rows[k - 1].source.as_str(), source) {
                return Some(&self.rows[k - 1]);
            }
            k = k - 1;
        }
        None
    }
}

/// One sighting of a dataset in the catalog feed.
pub struct Sighting {
    pub dataset_id: Option<Seq<char>>,
    pub title: Option<Seq<char>>,
    pub status: Option<Seq<char>>,
    pub updated_at: Option<Timestamp>,
    pub raw: serde_json::Value,
}

/// The catalog as a value: its rows, oldest first, the next id and the clock.
pub struct Catalog {
    pub rows: Seq<OsdrItemView>,
    pub next_id: i64,
    pub clock: Timestamp,
}

/// The position of the first row at or after `from` that has the natural
/// key `key`, or the number of rows when there is none.
pub open spec fn key_index(rows: Seq<OsdrItemView>, key: Seq<char>, from: int) -> int
    decreases rows.len() - from,
{
    if from < 0 || from >= rows.len() {
        rows.len() as int
    } else if rows[from].dataset_id == Some(key) {
        from
    } else {
        key_index(rows, key, from + 1)
    }
}

impl Catalog {
    /// Ids grow along the rows, no natural key occurs twice, and the rows
    /// stand in the order in which they were first seen, none of them later
    /// than the clock.
    pub open spec fn wf(self) -> bool {
        &&& 1 <= self.next_id
        &&& self.rows.len() < self.next_id
        &&& forall|i: int| 0 <= i < self.rows.len() ==> (#[trigger] self.rows[i]).id < self.next_id
        &&& forall|i: int, j: int|
            0 <= i < j < self.rows.len() ==> (#[trigger] self.rows[i]).id < (
            #[trigger] self.rows[j]).id
        &&& forall|i: int, j: int|
            0 <= i < j < self.rows.len() && (#[trigger] self.rows[i]).dataset_id.is_some()
                ==> self.rows[i].dataset_id != (#[trigger] self.rows[j]).dataset_id
        &&& forall|i: int, j: int|
            0 <= i < j < self.rows.len() ==> (#[trigger] self.rows[i]).inserted_at.spec_not_after(
                (#[trigger] self.rows[j]).inserted_at,
            )
        &&& forall|i: int|
            0 <= i < self.rows.len() ==> (#[trigger] self.rows[i]).inserted_at.spec_not_after(
                self.clock,
            )
    }

    /// The catalog after its clock was moved to `now`, or left alone when
    /// `now` lies behind it.
    pub open spec fn after_advance(self, now: Timestamp) -> Catalog {
        Catalog { rows: self.rows, next_id: self.next_id, clock: later_of(self.clock, now) }
    }

    /// The position of the row that a sighting overwrites, if there is one.
    pub open spec fn target(self, x: Sighting) -> Option<int> {
        match x.dataset_id {
            Some(k) => if key_index(self.rows, k, 0) < self.rows.len() {
                Some(key_index(self.rows, k, 0))
            } else {
                None
            },
            None => None,
        }
    }

    /// Why a sighting cannot be written, if so: it needs a new row and no
    /// id is left.
    pub open spec fn refusal(self, x: Sighting) -> Option<StoreError> {
        if self.target(x).is_none() && self.next_id == i64::MAX {
            Some(StoreError::IdsExhausted)
        } else {
            None
        }
    }

    /// What an upsert returns: the id of the row written, old or new.
    pub open spec fn upsert_result(self, x: Sighting) -> Result<i64, StoreError> {
        match self.refusal(x) {
            Some(e) => Err(e),
            None => match self.target(x) {
                Some(i) => Ok(self.rows[i].id),
                None => Ok(self.next_id),
            },
        }
    }

    /// The catalog after an upsert. A sighting with a natural key that is
    /// already stored overwrites that row's title, status, update time and
    /// payload, and nothing else; any other sighting becomes a new last row,
    /// first seen at the time on the clock. A refused sighting changes
    /// nothing.
    pub open spec fn after_upsert(self, x: Sighting) -> Catalog {
        if self.refusal(x).is_some() {
            self
        } else {
            match self.target(x) {
                Some(i) => Catalog {
                    rows: self.rows.update(
                        i,
                        OsdrItemView {
                            id: self.rows[i].id,
                            dataset_id: self.rows[i].dataset_id,
                            title: x.title,
                            status: x.status,
                            updated_at: x.updated_at,
                            inserted_at: self.rows[i].inserted_at,
                            raw: x.raw,
                        },
                    ),
                    next_id: self.next_id,
                    clock: self.clock,
                },
                None => Catalog {
                    rows: self.rows.push(
                        OsdrItemView {
                            id: self.next_id,
                            dataset_id: x.dataset_id,
                            title: x.title,
                            status: x.status,
                            updated_at: x.updated_at,
                            inserted_at: self.clock,
                            raw: x.raw,
                        },
                    ),
                    next_id: (self.next_id + 1) as i64,
                    clock: self.clock,
                },
            }
        }
    }
}

/// Where `key_index` points, the key is found, and nowhere before.
pub proof fn lemma_key_index(rows: Seq<OsdrItemView>, key: Seq<char>, from: int)
    requires
        0 <= from <= rows.len(),
    ensures
        from <= key_index(rows, key, from) <= rows.len(),
        key_index(rows, key, from) < rows.len() ==> rows[key_index(rows, key, from)].dataset_id
            == Some(key),
        forall|i: int|
            from <= i < key_index(rows, key, from) ==> (#[trigger] rows[i]).dataset_id != Some(key),
    decreases rows.len() - from,
{
    if from < rows.len() && rows[from].dataset_id != Some(key) {
        lemma_key_index(rows, key, from + 1);
    }
}

/// The row that carries a key is found by `key_index`, given that no
/// earlier row carries it.
pub proof fn lemma_key_index_at(rows: Seq<OsdrItemView>, key: Seq<char>, from: int, i: int)
    requires
        0 <= from <= i < rows.len(),
        rows[i].dataset_id == Some(key),
        forall|j: int| from <= j < i ==> (#[trigger] rows[j]).dataset_id != Some(key),
    ensures
        key_index(rows, key, from) == i,
    decreases i - from,
{
    if from < i {
        lemma_key_index_at(rows, key, from + 1, i);
    }
}

/// Moving the clock keeps the catalog well formed.
pub proof fn lemma_advance_keeps_wf(c: Catalog, now: Timestamp)
    requires
        c.wf(),
    ensures
        c.after_advance(now).wf(),
{
    let d = c.after_advance(now);
    assert forall|i: int| 0 <= i < d.rows.len() implies (#[trigger] d.rows[i]).inserted_at.spec_not_after(
        d.clock,
    ) by {
        assert(c.rows[i].inserted_at.spec_not_after(c.clock));
    }
}

/// An upsert keeps the catalog well formed: in particular, no natural key
/// ever occurs in two rows.
pub proof fn lemma_upsert_keeps_wf(c: Catalog, x: Sighting)
    requires
        c.wf(),
    ensures
        c.after_upsert(x).wf(),
{
    let d = c.after_upsert(x);
    if c.refusal(x).is_none() {
        match c.target(x) {
            Some(i) => {
                lemma_key_index(c.rows, x.dataset_id.unwrap(), 0);
                assert forall|a: int, b: int|
                    0 <= a < b < d.rows.len() && (#[trigger] d.rows[a]).dataset_id.is_some() implies d.rows[a].dataset_id
                    != (#[trigger] d.rows[b]).dataset_id by {
                    assert(d.rows[a].dataset_id == c.rows[a].dataset_id);
                    assert(d.rows[b].dataset_id == c.rows[b].dataset_id);
                }
                assert forall|a: int, b: int| 0 <= a < b < d.rows.len() implies (
                #[trigger] d.rows[a]).inserted_at.spec_not_after(
                    (#[trigger] d.rows[b]).inserted_at,
                ) by {
                    assert(d.rows[a].inserted_at == c.rows[a].inserted_at);
                    assert(d.rows[b].inserted_at == c.rows[b].inserted_at);
                }
                assert forall|a: int| 0 <= a < d.rows.len() implies (
                #[trigger] d.rows[a]).inserted_at.spec_not_after(d.clock) by {
                    assert(d.rows[a].inserted_at == c.rows[a].inserted_at);
                }
                assert forall|a: int, b: int| 0 <= a < b < d.rows.len() implies (
                #[trigger] d.rows[a]).id < (#[trigger] d.rows[b]).id by {
                    assert(d.rows[a].id == c.rows[a].id);
                    assert(d.rows[b].id == c.rows[b].id);
                }
                assert forall|a: int| 0 <= a < d.rows.len() implies (#[trigger] d.rows[a]).id
                    < d.next_id by {
                    assert(d.rows[a].id == c.rows[a].id);
                }
            },
            None => {
                let n = c.rows.len() as int;
                if x.dataset_id.is_some() {
                    lemma_key_index(c.rows, x.dataset_id.unwrap(), 0);
                }
                assert forall|a: int, b: int|
                    0 <= a < b < d.rows.len() && (#[trigger] d.rows[a]).dataset_id.is_some() implies d.rows[a].dataset_id
                    != (#[trigger] d.rows[b]).dataset_id by {
                    if b < n {
                        assert(d.rows[a] == c.rows[a]);
                        assert(d.rows[b] == c.rows[b]);
                    } else {
                        assert(d.rows[a] == c.rows[a]);
                    }
                }
                assert forall|a: int, b: int| 0 <= a < b < d.rows.len() implies (
                #[trigger] d.rows[a]).inserted_at.spec_not_after(
                    (#[trigger] d.rows[b]).inserted_at,
                ) by {
                    assert(d.rows[a] == c.rows[a]);
                    if b < n {
                        assert(d.rows[b] == c.rows[b]);
                    }
                }
                assert forall|a: int| 0 <= a < d.rows.len() implies (
                #[trigger] d.rows[a]).inserted_at.spec_not_after(d.clock) by {
                    if a < n {
                        assert(d.rows[a] == c.rows[a]);
                    }
                }
                assert forall|a: int, b: int| 0 <= a < b < d.rows.len() implies (
                #[trigger] d.rows[a]).id < (#[trigger] d.rows[b]).id by {
                    assert(d.rows[a] == c.rows[a]);
                    if b < n {
                        assert(d.rows[b] == c.rows[b]);
                    }
                }
                assert forall|a: int| 0 <= a < d.rows.len() implies (#[trigger] d.rows[a]).id
                    < d.next_id by {
                    if a < n {
                        assert(d.rows[a] == c.rows[a]);
                    }
                }
            },
        }
    }
}

/// No write deletes a row or touches what identifies one: every row keeps
/// its place, its id, its natural key and the time it was first seen.
pub proof fn lemma_upsert_keeps_rows(c: Catalog, x: Sighting, i: int)
    requires
        c.wf(),
        0 <= i < c.rows.len(),
    ensures
        c.after_upsert(x).rows.len() >= c.rows.len(),
        c.after_upsert(x).rows[i].id == c.rows[i].id,
        c.after_upsert(x).rows[i].dataset_id == c.rows[i].dataset_id,
        c.after_upsert(x).rows[i].inserted_at == c.rows[i].inserted_at,
        c.target(x) != Some(i) ==> c.after_upsert(x).rows[i] == c.rows[i],
{
    if x.dataset_id.is_some() {
        lemma_key_index(c.rows, x.dataset_id.unwrap(), 0);
    }
}

/// Two sightings of one natural key leave exactly one row with that key,
/// whatever the clock did in between. The second sighting is never refused,
/// returns the id that the first returned, adds no row, and the row holds
/// the title, status, update time and payload of the second.
pub proof fn lemma_same_key_twice(c: Catalog, x: Sighting, between: Timestamp, y: Sighting)
    requires
        c.wf(),
        x.dataset_id.is_some(),
        y.dataset_id == x.dataset_id,
        c.refusal(x).is_none(),
    ensures
        c.after_upsert(x).after_advance(between).refusal(y).is_none(),
        c.after_upsert(x).after_advance(between).upsert_result(y) == c.upsert_result(x),
        c.after_upsert(x).after_advance(between).after_upsert(y).rows.len() == c.after_upsert(
            x,
        ).rows.len(),
        ({
            let e = c.after_upsert(x).after_advance(between).after_upsert(y);
            let i = key_index(e.rows, x.dataset_id.unwrap(), 0);
            &&& 0 <= i < e.rows.len()
            &&& e.rows[i].dataset_id == x.dataset_id
            &&& e.rows[i].title == y.title
            &&& e.rows[i].status == y.status
            &&& e.rows[i].updated_at == y.updated_at
            &&& e.rows[i].raw == y.raw
            &&& e.rows[i].inserted_at == c.after_upsert(x).rows[i].inserted_at
            &&& forall|j: int|
                0 <= j < e.rows.len() && j != i ==> (#[trigger] e.rows[j]).dataset_id
                    != x.dataset_id
        }),
{
    let k = x.dataset_id.unwrap();
    lemma_key_index(c.rows, k, 0);
    lemma_upsert_keeps_wf(c, x);
    lemma_advance_keeps_wf(c.after_upsert(x), between);
    let d = c.after_upsert(x).after_advance(between);
    let i = match c.target(x) {
        Some(i) => i,
        None => c.rows.len() as int,
    };
    assert(d.rows[i].dataset_id == Some(k));
    assert forall|j: int| 0 <= j < i implies (#[trigger] d.rows[j]).dataset_id != Some(k) by {
        assert(d.rows[j].dataset_id == c.rows[j].dataset_id);
    }
    lemma_key_index_at(d.rows, k, 0, i);
    assert(d.target(y) == Some(i));
    let e = d.after_upsert(y);
    lemma_upsert_keeps_wf(d, y);
    assert(e.rows[i].dataset_id == Some(k));
    assert forall|j: int| 0 <= j < i implies (#[trigger] e.rows[j]).dataset_id != Some(k) by {
        assert(e.rows[j].dataset_id == d.rows[j].dataset_id);
    }
    lemma_key_index_at(e.rows, k, 0, i);
    assert forall|j: int| 0 <= j < e.rows.len() && j != i implies (#[trigger] e.rows[j]).dataset_id
        != x.dataset_id by {
        if j > i {
            assert(e.rows[i].dataset_id != e.rows[j].dataset_id);
        }
    }
}

/// Writing one sighting twice is the same as writing it once, when it
/// carries a natural key: the rows after the second write are the rows
/// after the first, whatever the clock did in between.
pub proof fn lemma_upsert_idempotent(c: Catalog, x: Sighting, between: Timestamp)
    requires
        c.wf(),
        x.dataset_id.is_some(),
        c.refusal(x).is_none(),
    ensures
        c.after_upsert(x).after_advance(between).after_upsert(x).rows == c.after_upsert(x).rows,
        c.after_upsert(x).after_advance(between).upsert_result(x) == c.upsert_result(x),
{
    lemma_same_key_twice(c, x, between, x);
    let k = x.dataset_id.unwrap();
    let d = c.after_upsert(x).after_advance(between);
    lemma_key_index(c.rows, k, 0);
    let i = match c.target(x) {
        Some(i) => i,
        None => c.rows.len() as int,
    };
    assert forall|j: int| 0 <= j < i implies (#[trigger] d.rows[j]).dataset_id != Some(k) by {
        assert(d.rows[j].dataset_id == c.rows[j].dataset_id);
    }
    lemma_key_index_at(d.rows, k, 0, i);
    assert(d.after_upsert(x).rows =~= d.rows);
}

/// Two sightings without a natural key become two rows with two ids, each
/// holding what its sighting brought, whatever the catalog held before.
pub proof fn lemma_no_key_twice(c: Catalog, x: Sighting, between: Timestamp, y: Sighting)
    requires
        c.wf(),
        x.dataset_id.is_none(),
        y.dataset_id.is_none(),
        c.next_id < i64::MAX - 1,
    ensures
        c.after_upsert(x).after_advance(between).after_upsert(y).rows.len() == c.rows.len() + 2,
        c.upsert_result(x) == Ok::<i64, StoreError>(c.next_id),
        c.after_upsert(x).after_advance(between).upsert_result(y) == Ok::<i64, StoreError>(
            (c.next_id + 1) as i64,
        ),
        ({
            let e = c.after_upsert(x).after_advance(between).after_upsert(y);
            let n = c.rows.len() as int;
            &&& e.rows.subrange(0, n) == c.rows
            &&& e.rows[n].id == c.next_id
            &&& e.rows[n].title == x.title
            &&& e.rows[n].raw == x.raw
            &&& e.rows[n + 1].id == c.next_id + 1
            &&& e.rows[n + 1].title == y.title
            &&& e.rows[n + 1].raw == y.raw
        }),
{
    let e = c.after_upsert(x).after_advance(between).after_upsert(y);
    assert(e.rows.subrange(0, c.rows.len() as int) =~= c.rows);
}

/// The catalog of datasets.
pub struct OsdrRepo {
    rows: Vec<OsdrItem>,
    next_id: i64,
    clock: Timestamp,
}

impl OsdrRepo {
    /// The catalog as a value.
    pub closed spec fn catalog(&self) -> Catalog {
        Catalog {
            rows: Seq::new(self.rows@.len(), |i: int| self.rows@[i]@),
            next_id: self.next_id,
            clock: self.clock,
        }
    }

    pub open spec fn wf(&self) -> bool {
        self.catalog().wf()
    }

    pub fn new() -> (r: OsdrRepo)
        ensures
            r.wf(),
            r.catalog() == (Catalog { rows: Seq::empty(), next_id: 1, clock: dawn() }),
    {
        OsdrRepo::starting_at(1)
    }

    /// An empty catalog whose first row gets the id `first_id`.
    pub fn starting_at(first_id: i64) -> (r: OsdrRepo)
        requires
            first_id >= 1,
        ensures
            r.wf(),
            r.catalog() == (Catalog { rows: Seq::empty(), next_id: first_id, clock: dawn() }),
    {
        let r = OsdrRepo {
            rows: Vec::new(),
            next_id: first_id,
            clock: Timestamp { secs: i64::MIN, nanos: 0 },
        };
        assert(r.catalog().rows =~= Seq::<OsdrItemView>::empty());
        r
    }

    /// Moves the store's clock to `now`, unless that would turn it back.
    pub fn advance(&mut self, now: Timestamp)
        requires
            old(self).wf(),
        ensures
            final(self).wf(),
            final(self).catalog() == old(self).catalog().after_advance(now),
    {
        proof {
            lemma_advance_keeps_wf(self.catalog(), now);
        }
        self.clock = later(self.clock, now);
    }

    fn find_key(&self, key: &str) -> (i: usize)
        ensures
            i == key_index(self.catalog().rows, key@, 0),
            i <= self.rows@.len(),
    {
        let mut i: usize = 0;
        while i < self.rows.len()
            invariant
                i <= self.rows@.len(),
                key_index(self.catalog().rows, key@, 0) == key_index(
                    self.catalog().rows,
                    key@,
                    i as int,
                ),
            decreases self.rows@.len() - i,
        {
            assert(self.catalog().rows[i as int] == self.rows@[i as int]@);
            match &self.rows[i].dataset_id {
                Some(s) => {
                    if same_text(s.as_str(), key) {
                        return i;
                    }
                },
                None => {},
            }
            i = i + 1;
        }
        i
    }

    /// Writes one sighting. With a natural key that is already stored, the
    /// row of that key is overwritten and its id returned; otherwise a new
    /// row is added, first seen at the time on the store's clock, and its id
    /// returned. A new row is refused when no id is left; then nothing
    /// changes.
    pub fn upsert(
        &mut self,
        dataset_id: Option<&str>,
        title: Option<&str>,
        status: Option<&str>,
        updated_at: Option<Timestamp>,
        raw: serde_json::Value,
    ) -> (res: Result<i64, StoreError>)
        requires
            old(self).wf(),
        ensures
            final(self).wf(),
            final(self).catalog() == old(self).catalog().after_upsert(
                (Sighting {
                    dataset_id: opt_str_view(dataset_id),
                    title: opt_str_view(title),
                    status: opt_str_view(status),
                    updated_at,
                    raw,
                }),
            ),
            res == old(self).catalog().upsert_result(
                (Sighting {
                    dataset_id: opt_str_view(dataset_id),
                    title: opt_str_view(title),
                    status: opt_str_view(status),
                    updated_at,
                    raw,
                }),
            ),
    {
        let ghost c = self.catalog();
        let ghost x = Sighting {
            dataset_id: opt_str_view(dataset_id),
            title: opt_str_view(title),
            status: opt_str_view(status),
            updated_at,
            raw,
        };
        proof {
            lemma_upsert_keeps_wf(c, x);
        }
        let n = self.rows.len();
        let at: usize = match dataset_id {
            Some(k) => self.find_key(k),
            None => n,
        };
        let dataset_id = owned_text(dataset_id);
        let title = owned_text(title);
        let status = owned_text(status);
        if at < n {
            proof {
                lemma_key_index(c.rows, x.dataset_id.unwrap(), 0);
            }
            assert(c.target(x) == Some(at as int));
            assert(c.rows[at as int] == self.rows@[at as int]@);
            let id: i64 = self.rows[at].id;
            let inserted_at = self.rows[at].inserted_at;
            self.rows.set(at, OsdrItem { id, dataset_id, title, status, updated_at, inserted_at, raw });
            assert(self.catalog().rows =~= c.after_upsert(x).rows);
            return Ok(id);
        }
        assert(c.target(x).is_none());
        if self.next_id == i64::MAX {
            return Err(StoreError::IdsExhausted);
        }
        let id: i64 = self.next_id;
        let inserted_at = self.clock;
        self.rows.push(OsdrItem { id, dataset_id, title, status, updated_at, inserted_at, raw });
        self.next_id = id + 1;
        assert(self.catalog().rows =~= c.after_upsert(x).rows);
        Ok(id)
    }

    /// The newest rows by the time they were first seen, the newest first,
    /// at most `limit` of them. A negative `limit` is refused.
    pub fn list(&self, limit: i64) -> (res: Result<Vec<&OsdrItem>, StoreError>)
        requires
            self.wf(),
        ensures
            limit < 0 ==> res matches Err(StoreError::NegativeLimit),
            limit >= 0 ==> (res matches Ok(v) && v@.len() == (if limit < self.catalog().rows.len() {
                limit as int
            } else {
                self.catalog().rows.len() as int
            }) && (forall|j: int|
                0 <= j < v@.len() ==> (#[trigger] v@[j])@ == self.catalog().rows[
                    self.catalog().rows.len() - 1 - j
                ]) && (forall|j: int, k: int|
                0 <= j < k < v@.len() ==> (#[trigger] v@[k])@.inserted_at.spec_not_after(
                    (#[trigger] v@[j])@.inserted_at,
                ))),
    {
        if limit < 0 {
            return Err(StoreError::NegativeLimit);
        }
        let n = self.rows.len();
        let mut out: Vec<&OsdrItem> = Vec::new();
        let mut j: usize = 0;
        while j < n && (j as i64) < limit
            invariant
                n == self.rows@.len(),
                n == self.catalog().rows.len(),
                n < i64::MAX,
                0 <= limit,
                j <= n,
                j <= limit,
                out@.len() == j,
                forall|q: int|
                    0 <= q < j ==> (#[trigger] out@[q])@ == self.catalog().rows[n - 1 - q],
            decreases n - j,
        {
            assert(self.catalog().rows[n - 1 - j] == self.rows@[n - 1 - j]@);
            out.push(&self.rows[n - 1 - j]);
            j = j + 1;
        }
        assert forall|a: int, b: int| 0 <= a < b < out@.len() implies (
        #[trigger] out@[b])@.inserted_at.spec_not_after((#[trigger] out@[a])@.inserted_at) by {
            let rows = self.catalog().rows;
            assert(rows[n - 1 - b].inserted_at.spec_not_after(rows[n - 1 - a].inserted_at));
        }
        Ok(out)
    }

    /// How many rows the catalog holds.
    pub fn count(&self) -> (n: i64)
        requires
            self.wf(),
        ensures
            n == self.catalog().rows.len(),
    {
        self.rows.len() as i64
    }
}

} // verus!
