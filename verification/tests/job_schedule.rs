use rust_iss::config::FetchIntervals;
use rust_iss::scheduler::{Feed, FetchTask, JobAction, Reply};
use rust_iss::validation::SpaceSource;

fn every() -> FetchIntervals {
    FetchIntervals { osdr: 600, iss: 120, apod: 43200, neo: 7200, donki: 3600, spacex: 3601 }
}

#[test]
fn lock_keys_are_fixed_and_distinct() {
    let feeds = [Feed::Osdr, Feed::Iss, Feed::Apod, Feed::Neo, Feed::Donki, Feed::Spacex];
    let keys: Vec<i64> = feeds.iter().map(|f| f.lock_key()).collect();
    assert_eq!(keys, vec![1001, 1002, 1003, 1004, 1005, 1006]);
}

#[test]
fn intervals_belong_to_their_feeds() {
    let e = every();
    assert_eq!(Feed::Osdr.interval(&e), 600);
    assert_eq!(Feed::Iss.interval(&e), 120);
    assert_eq!(Feed::Apod.interval(&e), 43200);
    assert_eq!(Feed::Neo.interval(&e), 7200);
    assert_eq!(Feed::Donki.interval(&e), 3600);
    assert_eq!(Feed::Spacex.interval(&e), 3601);
}

#[test]
fn granted_tick_runs_then_unlocks_then_sleeps() {
    let e = every();
    let f = Feed::Iss;
    let a0 = f.first_action();
    assert_eq!(a0, JobAction::TryLock { key: 1002 });
    let a1 = f.next_action(&e, a0, Reply::Granted);
    assert_eq!(a1, JobAction::RunCycle);
    let a2 = f.next_action(&e, a1, Reply::Failed);
    assert_eq!(a2, JobAction::Unlock { key: 1002 });
    let a3 = f.next_action(&e, a2, Reply::Failed);
    assert_eq!(a3, JobAction::Sleep { secs: 120 });
    let a4 = f.next_action(&e, a3, Reply::Done);
    assert_eq!(a4, a0);
}

#[test]
fn denied_tick_skips_the_cycle() {
    let e = every();
    for reply in [Reply::Denied, Reply::Failed, Reply::Done] {
        let a1 = Feed::Osdr.next_action(&e, Feed::Osdr.first_action(), reply);
        assert_eq!(a1, JobAction::Sleep { secs: 600 });
    }
}

#[test]
fn cycles_list_their_fetches() {
    assert_eq!(Feed::Osdr.tasks(), vec![FetchTask::Catalog]);
    assert_eq!(Feed::Iss.tasks(), vec![FetchTask::Position]);
    assert_eq!(
        Feed::Donki.tasks(),
        vec![FetchTask::Space(SpaceSource::Flr), FetchTask::Space(SpaceSource::Cme)]
    );
    assert_eq!(Feed::Spacex.tasks(), vec![FetchTask::Space(SpaceSource::Spacex)]);
    assert_eq!(Feed::Apod.tasks(), vec![FetchTask::Space(SpaceSource::Apod)]);
    assert_eq!(Feed::Neo.tasks(), vec![FetchTask::Space(SpaceSource::Neo)]);
}
