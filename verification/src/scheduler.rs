//! One polling job per feed: what a job does next, given what it just did.
use vstd::prelude::*;
use crate::config::FetchIntervals;
use crate::validation::SpaceSource;

verus! {

/// The feeds that are polled, one job each.
#[derive(Clone, Copy, Debug, PartialEq, Eq, Structural)]
pub enum Feed {
    Osdr,
    Iss,
    Apod,
    Neo,
    Donki,
    Spacex,
}

/// One fetch-and-store of a job's cycle.
#[derive(Clone, Copy, Debug, PartialEq, Eq, Structural)]
pub enum FetchTask {
    /// Fetch the catalog and write every entry.
    Catalog,
    /// Fetch the satellite's position and append it.
    Position,
    /// Fetch one space-science feed and append the report.
    Space(SpaceSource),
}

/// What a job does.
#[derive(Clone, Copy, Debug, PartialEq, Eq, Structural)]
pub enum JobAction {
    /// Try, without waiting, to take the feed's lock.
    TryLock { key: i64 },
    /// Run the feed's cycle.
    RunCycle,
    /// Give the feed's lock back.
    Unlock { key: i64 },
    /// Rest until the next tick.
    Sleep { secs: u64 },
}

/// How an action ended.
#[derive(Clone, Copy, Debug, PartialEq, Eq, Structural)]
pub enum Reply {
    /// The lock was taken.
    Granted,
    /// The lock is held elsewhere.
    Denied,
    /// The action went through.
    Done,
    /// The action failed.
    Failed,
}

impl Feed {
    /// The number of the feed's lock: fixed, and shared by every instance.
    pub open spec fn spec_lock_key(self) -> i64 {
        match self {
            Feed::Osdr => 1001,
            Feed::Iss => 1002,
            Feed::Apod => 1003,
            Feed::Neo => 1004,
            Feed::Donki => 1005,
            Feed::Spacex => 1006,
        }
    }

    /// The seconds between two ticks of the feed's job.
    pub open spec fn spec_interval(self, every: FetchIntervals) -> u64 {
        match self {
            Feed::Osdr => every.osdr,
            Feed::Iss => every.iss,
            Feed::Apod => every.apod,
            Feed::Neo => every.neo,
            Feed::Donki => every.donki,
            Feed::Spacex => every.spacex,
        }
    }

    /// The fetches of one cycle, in order.
    pub open spec fn spec_tasks(self) -> Seq<FetchTask> {
        match self {
            Feed::Osdr => seq![FetchTask::Catalog],
            Feed::Iss => seq![FetchTask::Position],
            Feed::Apod => seq![FetchTask::Space(SpaceSource::Apod)],
            Feed::Neo => seq![FetchTask::Space(SpaceSource::Neo)],
            Feed::Donki => seq![
                FetchTask::Space(SpaceSource::Flr),
                FetchTask::Space(SpaceSource::Cme),
            ],
            Feed::Spacex => seq![FetchTask::Space(SpaceSource::Spacex)],
        }
    }

    /// The first action of a job.
    pub open spec fn spec_first(self) -> JobAction {
        JobAction::TryLock { key: self.spec_lock_key() }
    }

    /// The action that follows `done`, which ended with `reply`. The cycle
    /// runs only under a lock that was granted; the lock is given back
    /// whether the cycle went through or failed; the job rests after a
    /// denied lock and after giving the lock back, and tries again after
    /// each rest.
    pub open spec fn spec_after(self, every: FetchIntervals, done: JobAction, reply: Reply) -> JobAction {
        match done {
            JobAction::TryLock { .. } => if reply == Reply::Granted {
                JobAction::RunCycle
            } else {
                JobAction::Sleep { secs: self.spec_interval(every) }
            },
            JobAction::RunCycle => JobAction::Unlock { key: self.spec_lock_key() },
            JobAction::Unlock { .. } => JobAction::Sleep { secs: self.spec_interval(every) },
            JobAction::Sleep { .. } => JobAction::TryLock { key: self.spec_lock_key() },
        }
    }

    pub fn lock_key(self) -> (key: i64)
        ensures
            key == self.spec_lock_key(),
    {
        match self {
            Feed::Osdr => 1001,
            Feed::Iss => 1002,
            Feed::Apod => 1003,
            Feed::Neo => 1004,
            Feed::Donki => 1005,
            Feed::Spacex => 1006,
        }
    }

    pub fn interval(self, every: &FetchIntervals) -> (secs: u64)
        ensures
            secs == self.spec_interval(*every),
    {
        match self {
            Feed::Osdr => every.osdr,
            Feed::Iss => every.iss,
            Feed::Apod => every.apod,
            Feed::Neo => every.neo,
            Feed::Donki => every.donki,
            Feed::Spacex => every.spacex,
        }
    }

    pub fn tasks(self) -> (r: Vec<FetchTask>)
        ensures
            r@ == self.spec_tasks(),
    {
        let mut r: Vec<FetchTask> = Vec::new();
        match self {
            Feed::Osdr => r.push(FetchTask::Catalog),
            Feed::Iss => r.push(FetchTask::Position),
            Feed::Apod => r.push(FetchTask::Space(SpaceSource::Apod)),
            Feed::Neo => r.push(FetchTask::Space(SpaceSource::Neo)),
            Feed::Donki => {
                r.push(FetchTask::Space(SpaceSource::Flr));
                r.push(FetchTask::Space(SpaceSource::Cme));
            },
            Feed::Spacex => r.push(FetchTask::Space(SpaceSource::Spacex)),
        }
        assert(r@ =~= self.spec_tasks());
        r
    }

    pub fn first_action(self) -> (a: JobAction)
        ensures
            a == self.spec_first(),
    {
        JobAction::TryLock { key: self.lock_key() }
    }

    /// Decides what the job does after `done` ended with `reply`.
    pub fn next_action(self, every: &FetchIntervals, done: JobAction, reply: Reply) -> (a: JobAction)
        ensures
            a == self.spec_after(*every, done, reply),
    {
        match done {
            JobAction::TryLock { .. } => {
                if reply == Reply::Granted {
                    JobAction::RunCycle
                } else {
                    JobAction::Sleep { secs: self.interval(every) }
                }
            },
            JobAction::RunCycle => JobAction::Unlock { key: self.lock_key() },
            JobAction::Unlock { .. } => JobAction::Sleep { secs: self.interval(every) },
            JobAction::Sleep { .. } => JobAction::TryLock { key: self.lock_key() },
        }
    }
}

/// No two feeds share a lock.
pub proof fn lemma_lock_keys_differ(a: Feed, b: Feed)
    requires
        a != b,
    ensures
        a.spec_lock_key() != b.spec_lock_key(),
{
}

/// A tick that is denied the lock does no work: the job rests for the
/// feed's interval and then tries again.
pub proof fn lemma_denied_tick_rests(feed: Feed, every: FetchIntervals, reply: Reply, woke: Reply)
    requires
        reply != Reply::Granted,
    ensures
        feed.spec_after(every, feed.spec_first(), reply) == (JobAction::Sleep {
            secs: feed.spec_interval(every),
        }),
        feed.spec_after(every, feed.spec_after(every, feed.spec_first(), reply), woke)
            == feed.spec_first(),
{
}

/// A tick that gets the lock runs the cycle once, gives the lock back
/// whatever came of the cycle and of the release, rests for the feed's
/// interval and then tries again.
pub proof fn lemma_granted_tick_releases(
    feed: Feed,
    every: FetchIntervals,
    cycle: Reply,
    release: Reply,
    woke: Reply,
)
    ensures
        ({
            let a1 = feed.spec_after(every, feed.spec_first(), Reply::Granted);
            let a2 = feed.spec_after(every, a1, cycle);
            let a3 = feed.spec_after(every, a2, release);
            let a4 = feed.spec_after(every, a3, woke);
            &&& a1 == JobAction::RunCycle
            &&& a2 == (JobAction::Unlock { key: feed.spec_lock_key() })
            &&& a3 == (JobAction::Sleep { secs: feed.spec_interval(every) })
            &&& a4 == feed.spec_first()
        }),
{
}

/// The instances that poll one feed against one store: which of them holds
/// the feed's lock, and what each of them does next.
pub struct Fleet {
    pub holder: Option<int>,
    pub next: Seq<JobAction>,
}

impl Fleet {
    /// `n` instances that have just started, and a free lock.
    pub open spec fn started(feed: Feed, n: nat) -> Fleet {
        Fleet { holder: None, next: Seq::new(n, |i: int| feed.spec_first()) }
    }

    /// Whether instance `i` is inside the feed's cycle: about to run it, or
    /// about to give the lock back after it.
    pub open spec fn in_cycle(self, i: int) -> bool {
        self.next[i] is RunCycle || self.next[i] is Unlock
    }

    /// The reply that instance `i` gets when it does what it does next. The
    /// lock is granted only while nobody holds it and the store answers;
    /// how anything else ends is `outcome`.
    pub open spec fn reply_to(self, i: int, outcome: Reply) -> Reply {
        match self.next[i] {
            JobAction::TryLock { .. } => if outcome == Reply::Failed {
                Reply::Failed
            } else if self.holder.is_none() {
                Reply::Granted
            } else {
                Reply::Denied
            },
            _ => if outcome == Reply::Failed {
                Reply::Failed
            } else {
                Reply::Done
            },
        }
    }

    /// Who holds the lock after instance `i` got `reply`. A release that
    /// fails leaves the lock where it was.
    pub open spec fn holder_after(self, i: int, reply: Reply) -> Option<int> {
        match self.next[i] {
            JobAction::TryLock { .. } => if reply == Reply::Granted {
                Some(i)
            } else {
                self.holder
            },
            JobAction::Unlock { .. } => if reply == Reply::Done && self.holder == Some(i) {
                None
            } else {
                self.holder
            },
            _ => self.holder,
        }
    }

    /// The fleet after instance `i` did what it does next.
    pub open spec fn step(self, feed: Feed, every: FetchIntervals, i: int, outcome: Reply) -> Fleet {
        let reply = self.reply_to(i, outcome);
        Fleet {
            holder: self.holder_after(i, reply),
            next: self.next.update(i, feed.spec_after(every, self.next[i], reply)),
        }
    }

    /// Whoever is inside the cycle holds the lock.
    pub open spec fn exclusive(self) -> bool {
        forall|i: int| 0 <= i < self.next.len() && #[trigger] self.in_cycle(i) ==> self.holder == Some(i)
    }
}

/// A fleet that has just started has nobody inside the cycle.
pub proof fn lemma_fleet_starts_exclusive(feed: Feed, n: nat)
    ensures
        Fleet::started(feed, n).exclusive(),
{
}

/// Whatever an instance does next and however it ends, whoever is inside
/// the cycle afterwards holds the lock.
pub proof fn lemma_step_keeps_exclusive(
    fleet: Fleet,
    feed: Feed,
    every: FetchIntervals,
    i: int,
    outcome: Reply,
)
    requires
        fleet.exclusive(),
        0 <= i < fleet.next.len(),
    ensures
        fleet.step(feed, every, i, outcome).exclusive(),
{
    let after = fleet.step(feed, every, i, outcome);
    assert forall|j: int| 0 <= j < after.next.len() && #[trigger] after.in_cycle(j) implies after.holder
        == Some(j) by {
        if j != i {
            assert(after.next[j] == fleet.next[j]);
            assert(fleet.in_cycle(j));
        } else {
            if fleet.next[i] is RunCycle {
                assert(fleet.in_cycle(i));
            }
        }
    }
}

/// At no moment are two instances inside the cycle of one feed.
pub proof fn lemma_one_instance_in_cycle(fleet: Fleet, i: int, j: int)
    requires
        fleet.exclusive(),
        0 <= i < fleet.next.len(),
        0 <= j < fleet.next.len(),
        fleet.in_cycle(i),
        fleet.in_cycle(j),
    ensures
        i == j,
{
}

} // verus!
