//! The admission gate: a per-client count of requests in a window of one
//! minute, and the decision it leads to.
use vstd::prelude::*;
use vstd::string::*;
use crate::text::same_text;

verus! {

/// Seconds a counter lives after its first request, and the wait suggested
/// to a client that was turned away.
pub const WINDOW_SECS: u64 = 60;

/// The status that answers a request that was turned away.
pub const REJECT_STATUS: u16 = 429;

/// A header as the request carried it.
pub enum HeaderText {
    /// The request has no such header.
    Absent,
    /// The header is there, but its value is no readable text.
    Unreadable,
    Text(String),
}

pub enum HeaderTextView {
    Absent,
    Unreadable,
    Text(Seq<char>),
}

impl View for HeaderText {
    type V = HeaderTextView;

    open spec fn view(&self) -> HeaderTextView {
        match self {
            HeaderText::Absent => HeaderTextView::Absent,
            HeaderText::Unreadable => HeaderTextView::Unreadable,
            HeaderText::Text(s) => HeaderTextView::Text(s@),
        }
    }
}

/// The identity under which a request is counted: the forwarding header when
/// the request has one, else the real-address header; `unknown` when the one
/// chosen is missing or unreadable.
pub open spec fn identity_of(forwarded_for: HeaderTextView, real_ip: HeaderTextView) -> Seq<char> {
    let chosen = if forwarded_for is Absent {
        real_ip
    } else {
        forwarded_for
    };
    match chosen {
        HeaderTextView::Text(s) => s,
        _ => "unknown"@,
    }
}

pub fn client_identity(forwarded_for: &HeaderText, real_ip: &HeaderText) -> (id: String)
    ensures
        id@ == identity_of(forwarded_for@, real_ip@),
{
    let chosen = match forwarded_for {
        HeaderText::Absent => real_ip,
        _ => forwarded_for,
    };
    match chosen {
        HeaderText::Text(s) => s.clone(),
        _ => String::from_str("unknown"),
    }
}

/// The name of the counter of one identity.
pub fn counter_key(identity: &str) -> (key: String)
    ensures
        key@ == "rate_limit:"@ + identity@,
{
    String::from_str("rate_limit:").concat(identity)
}

/// How a request is answered at the door.
#[derive(Clone, Copy, Debug, PartialEq, Eq, Structural)]
pub enum GateDecision {
    Admit,
    /// Turned away: the threshold in force and the seconds to wait.
    Reject { limit: u32, retry_after: u64 },
}

/// A request is turned away exactly when it brought the count over the
/// threshold.
pub open spec fn decision_for(count: u32, limit: u32) -> GateDecision {
    if count > limit {
        GateDecision::Reject { limit, retry_after: WINDOW_SECS }
    } else {
        GateDecision::Admit
    }
}

/// The decision when the counter store answered, or did not: without a
/// count every request is admitted.
pub open spec fn decision_for_reply(count: Option<u32>, limit: u32) -> GateDecision {
    match count {
        Some(c) => decision_for(c, limit),
        None => GateDecision::Admit,
    }
}

pub fn decide(count: u32, limit: u32) -> (d: GateDecision)
    ensures
        d == decision_for(count, limit),
{
    if count > limit {
        GateDecision::Reject { limit, retry_after: WINDOW_SECS }
    } else {
        GateDecision::Admit
    }
}

/// Decides on what the counter store answered to the increment; `None`
/// stands for a store that is not configured or could not be reached.
pub fn decide_reply(count: Option<u32>, limit: u32) -> (d: GateDecision)
    ensures
        d == decision_for_reply(count, limit),
{
    match count {
        Some(c) => decide(c, limit),
        None => GateDecision::Admit,
    }
}

/// Whether the increment that returned `count` opened a new window, so that
/// the counter must be given its expiry.
pub fn opens_window(count: u32) -> (r: bool)
    ensures
        r == (count == 1),
{
    count == 1
}

/// The counter of one identity: how many requests the current window has
/// seen and the second at which the window ends.
#[derive(Clone, Copy, Debug, PartialEq, Eq, Structural)]
pub struct RateCounter {
    pub count: u32,
    pub expires_at: Option<u64>,
}

impl RateCounter {
    /// Whether the counter still counts at second `now`.
    pub open spec fn live_at(self, now: u64) -> bool {
        match self.expires_at {
            Some(t) => now < t,
            None => true,
        }
    }

    /// The counter after one more request at second `now`. A counter whose
    /// window is over starts again from nothing; the first request of a
    /// window sets its end. The count stops at the largest number it can hold.
    pub open spec fn after_hit(self, now: u64) -> RateCounter {
        let base = if self.live_at(now) {
            self
        } else {
            RateCounter { count: 0, expires_at: None }
        };
        let count = if base.count < u32::MAX {
            (base.count + 1) as u32
        } else {
            base.count
        };
        let expires_at = if count == 1 {
            Some(if now <= u64::MAX - WINDOW_SECS {
                (now + WINDOW_SECS) as u64
            } else {
                u64::MAX
            })
        } else {
            base.expires_at
        };
        RateCounter { count, expires_at }
    }

    /// The counter after requests at the seconds `times`, in that order.
    pub open spec fn after_hits(self, times: Seq<u64>) -> RateCounter
        decreases times.len(),
    {
        if times.len() == 0 {
            self
        } else {
            self.after_hits(times.drop_last()).after_hit(times.last())
        }
    }

    /// A counter that has seen no request.
    pub open spec fn fresh() -> RateCounter {
        RateCounter { count: 0, expires_at: None }
    }

    pub fn new() -> (c: RateCounter)
        ensures
            c == RateCounter::fresh(),
    {
        RateCounter { count: 0, expires_at: None }
    }

    /// Counts one request at second `now` and returns the new count.
    pub fn hit(&mut self, now: u64) -> (count: u32)
        ensures
            *final(self) == old(self).after_hit(now),
            count == final(self).count,
    {
        let live = match self.expires_at {
            Some(t) => now < t,
            None => true,
        };
        if !live {
            self.count = 0;
            self.expires_at = None;
        }
        if self.count < u32::MAX {
            self.count = self.count + 1;
        }
        if self.count == 1 {
            let end: u64 = if now <= u64::MAX - WINDOW_SECS {
                now + WINDOW_SECS
            } else {
                u64::MAX
            };
            self.expires_at = Some(end);
        }
        self.count
    }

    /// Counts one request at second `now` and decides on it.
    pub fn screen(&mut self, limit: u32, now: u64) -> (d: GateDecision)
        ensures
            *final(self) == old(self).after_hit(now),
            d == decision_for(old(self).after_hit(now).count, limit),
    {
        let count = self.hit(now);
        decide(count, limit)
    }
}

/// The second at which a window that opens at second `start` is over.
pub open spec fn window_end(start: u64) -> u64 {
    if start <= u64::MAX - WINDOW_SECS {
        (start + WINDOW_SECS) as u64
    } else {
        u64::MAX
    }
}

/// The requests at `times` all come less than 60 seconds after the first of
/// them, and none at the last second that can be written.
pub open spec fn within_one_window(times: Seq<u64>) -> bool {
    &&& times.len() > 0
    &&& forall|i: int|
        0 <= i < times.len() ==> times[0] <= #[trigger] times[i] < times[0] + WINDOW_SECS
            && times[i] < u64::MAX
}

/// Requests of one identity that fall into one window are counted one by
/// one: after `n` of them the count is `n`, and the window still ends 60
/// seconds after the first.
pub proof fn lemma_window_counts(times: Seq<u64>)
    requires
        within_one_window(times),
        times.len() <= u32::MAX,
    ensures
        RateCounter::fresh().after_hits(times) == (RateCounter {
            count: times.len() as u32,
            expires_at: Some(window_end(times[0])),
        }),
    decreases times.len(),
{
    let fresh = RateCounter::fresh();
    if times.len() == 1 {
        assert(times.drop_last().len() == 0);
        assert(fresh.after_hits(times.drop_last()) == fresh);
        assert(times.last() == times[0]);
    } else {
        let front = times.drop_last();
        assert(within_one_window(front)) by {
            assert(front[0] == times[0]);
            assert forall|i: int| 0 <= i < front.len() implies front[0] <= #[trigger] front[i]
                < front[0] + WINDOW_SECS && front[i] < u64::MAX by {
                assert(front[i] == times[i]);
            }
        }
        lemma_window_counts(front);
        assert(front[0] == times[0]);
        assert(times[0] <= times[times.len() - 1] < times[0] + WINDOW_SECS);
    }
}

/// Of the requests that one identity makes within one window, the first
/// `limit` are admitted and every later one is turned away with the
/// threshold echoed back: the request number `n` is admitted exactly when
/// `n <= limit`.
pub proof fn lemma_gate_admits_up_to_limit(times: Seq<u64>, limit: u32)
    requires
        within_one_window(times),
        times.len() <= u32::MAX,
    ensures
        decision_for(RateCounter::fresh().after_hits(times).count, limit)
            == (if times.len() <= limit {
            GateDecision::Admit
        } else {
            GateDecision::Reject { limit, retry_after: WINDOW_SECS }
        }),
{
    lemma_window_counts(times);
}

/// Once the window of a counter is over, the next request starts a new one:
/// it is counted as the first, and admitted under any threshold of at least
/// one.
pub proof fn lemma_gate_resets_after_window(c: RateCounter, now: u64, limit: u32)
    requires
        c.expires_at matches Some(t) && now >= t,
        limit >= 1,
    ensures
        c.after_hit(now).count == 1,
        decision_for(c.after_hit(now).count, limit) == GateDecision::Admit,
{
}

/// One identity and its counter.
pub struct GateEntry {
    pub identity: String,
    pub counter: RateCounter,
}

/// The position of the first of `ids`, at or after `from`, that is `id`, or
/// the number of `ids` when there is none.
pub open spec fn position(ids: Seq<Seq<char>>, id: Seq<char>, from: int) -> int
    decreases ids.len() - from,
{
    if from < 0 || from >= ids.len() {
        ids.len() as int
    } else if ids[from] == id {
        from
    } else {
        position(ids, id, from + 1)
    }
}

/// The admission gate: a threshold per minute and one counter per identity
/// that has been seen.
pub struct AdmissionGate {
    limit: u32,
    entries: Vec<GateEntry>,
}

impl AdmissionGate {
    pub closed spec fn limit(&self) -> u32 {
        self.limit
    }

    /// The identities that have a counter, in the order in which they were
    /// first seen.
    pub closed spec fn identities(&self) -> Seq<Seq<char>> {
        Seq::new(self.entries@.len(), |i: int| self.entries@[i].identity@)
    }

    pub closed spec fn counters(&self) -> Seq<RateCounter> {
        Seq::new(self.entries@.len(), |i: int| self.entries@[i].counter)
    }

    /// The counter of `id`: a fresh one for an identity never seen.
    pub open spec fn counter_of(&self, id: Seq<char>) -> RateCounter {
        if position(self.identities(), id, 0) < self.identities().len() {
            self.counters()[position(self.identities(), id, 0)]
        } else {
            RateCounter::fresh()
        }
    }

    pub fn new(limit: u32) -> (g: AdmissionGate)
        ensures
            g.limit() == limit,
            forall|id: Seq<char>| g.counter_of(id) == RateCounter::fresh(),
    {
        AdmissionGate { limit, entries: Vec::new() }
    }

    fn find(&self, identity: &str) -> (p: usize)
        ensures
            p == position(self.identities(), identity@, 0),
            p <= self.entries@.len(),
    {
        let mut i: usize = 0;
        while i < self.entries.len()
            invariant
                i <= self.entries@.len(),
                position(self.identities(), identity@, 0) == position(
                    self.identities(),
                    identity@,
                    i as int,
                ),
            decreases self.entries@.len() - i,
        {
            assert(self.identities()[i as int] == self.entries@[i as int].identity@);
            if same_text(self.entries[i].identity.as_str(), identity) {
                return i;
            }
            i = i + 1;
        }
        i
    }

    /// Counts a request of `identity` at second `now` and decides on it.
    /// Only the counter of that identity changes.
    pub fn screen(&mut self, identity: &str, now: u64) -> (d: GateDecision)
        ensures
            final(self).limit() == old(self).limit(),
            final(self).counter_of(identity@) == old(self).counter_of(identity@).after_hit(now),
            forall|other: Seq<char>|
                other != identity@ ==> #[trigger] final(self).counter_of(other) == old(
                    self,
                ).counter_of(other),
            d == decision_for(old(self).counter_of(identity@).after_hit(now).count, old(self).limit()),
    {
        let ghost ids = self.identities();
        let ghost counters = self.counters();
        let p = self.find(identity);
        proof {
            lemma_position(ids, identity@, 0);
        }
        let mut counter = if p < self.entries.len() {
            assert(counters[p as int] == self.entries@[p as int].counter);
            self.entries[p].counter
        } else {
            RateCounter::new()
        };
        let d = counter.screen(self.limit, now);
        if p < self.entries.len() {
            self.entries.set(p, GateEntry { identity: String::from_str(identity), counter });
            assert(self.identities() =~= ids);
            assert(self.counters() =~= counters.update(p as int, counter));
            assert forall|other: Seq<char>| other != identity@ implies #[trigger] self.counter_of(
                other,
            ) == old(self).counter_of(other) by {
                lemma_position(ids, other, 0);
            }
        } else {
            self.entries.push(GateEntry { identity: String::from_str(identity), counter });
            assert(self.identities() =~= ids.push(identity@));
            assert(self.counters() =~= counters.push(counter));
            proof {
                lemma_position_push(ids, identity@, identity@, 0);
            }
            assert forall|other: Seq<char>| other != identity@ implies #[trigger] self.counter_of(
                other,
            ) == old(self).counter_of(other) by {
                lemma_position_push(ids, other, identity@, 0);
                lemma_position(ids, other, 0);
            }
        }
        d
    }
}

/// Where `position` points, the identity is found, and nowhere before.
pub proof fn lemma_position(ids: Seq<Seq<char>>, id: Seq<char>, from: int)
    requires
        0 <= from <= ids.len(),
    ensures
        from <= position(ids, id, from) <= ids.len(),
        position(ids, id, from) < ids.len() ==> ids[position(ids, id, from)] == id,
    decreases ids.len() - from,
{
    if from < ids.len() && ids[from] != id {
        lemma_position(ids, id, from + 1);
    }
}

/// One more identity at the end is found only by a search that found
/// nothing before.
pub proof fn lemma_position_push(ids: Seq<Seq<char>>, id: Seq<char>, extra: Seq<char>, from: int)
    requires
        0 <= from <= ids.len(),
    ensures
        position(ids.push(extra), id, from) == (if position(ids, id, from) < ids.len() {
            position(ids, id, from)
        } else if extra == id {
            ids.len() as int
        } else {
            ids.len() as int + 1
        }),
    decreases ids.len() - from,
{
    let more = ids.push(extra);
    if from < ids.len() {
        assert(more[from] == ids[from]);
        if ids[from] != id {
            lemma_position_push(ids, id, extra, from + 1);
        }
    } else {
        assert(more[from] == extra);
        if extra != id {
            assert(position(more, id, from + 1) == more.len());
        }
    }
}

} // verus!
