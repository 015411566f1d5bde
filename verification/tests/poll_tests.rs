use seatwatch::diff::Transition;
use seatwatch::key::SectionKey;
use seatwatch::kvmap::KvMap;
use seatwatch::poll::PollState;
use seatwatch::snapshot::SeatSnapshot;

fn key(n: u64) -> SectionKey {
    SectionKey { stream_id: n, block_id: n, course_id: n }
}

fn snapshot(entries: &[(SectionKey, u64)]) -> SeatSnapshot {
    let mut snap: SeatSnapshot = KvMap::new();
    for (k, v) in entries {
        snap.insert(*k, *v);
    }
    snap
}

#[test]
fn priming_never_notifies_whatever_the_snapshot_holds() {
    let first = snapshot(&[(key(1), 5), (key(2), 0), (key(3), 100)]);
    let (state, transitions) = PollState::Priming.on_snapshot(first);
    assert_eq!(transitions.len(), 0);
    assert!(matches!(state, PollState::Steady { .. }));
}

#[test]
fn steady_cycle_diffs_against_the_committed_baseline() {
    let (state, _) = PollState::Priming.on_snapshot(snapshot(&[(key(1), 0)]));
    let (state, transitions) = state.on_snapshot(snapshot(&[(key(1), 4)]));
    assert_eq!(transitions, vec![Transition { key: key(1), previous: Some(0), current: 4 }]);
    assert!(matches!(state, PollState::Steady { .. }));
}

#[test]
fn committed_baseline_prevents_renotification() {
    let (state, _) = PollState::Priming.on_snapshot(snapshot(&[(key(1), 0)]));
    let (state, transitions) = state.on_snapshot(snapshot(&[(key(1), 4)]));
    assert_eq!(transitions.len(), 1);
    // The baseline was replaced wholesale, so an identical snapshot on the
    // next cycle reports nothing, whether or not a send succeeded.
    let (_, transitions) = state.on_snapshot(snapshot(&[(key(1), 4)]));
    assert_eq!(transitions.len(), 0);
}

#[test]
fn fetch_failure_discards_the_cycle_and_restarts_priming() {
    // Reach a steady state with a baseline.
    let (state, _) = PollState::Priming.on_snapshot(snapshot(&[(key(1), 0)]));
    assert!(matches!(state, PollState::Steady { .. }));

    // A cycle whose catalog fetch fails commits nothing: the snapshot that
    // was fetched alongside it is dropped and the loop restarts priming.
    let state = state.on_fetch_error();
    assert!(matches!(state, PollState::Priming));

    // The next successful fetch re-primes: no notifications, even for a
    // section that would have qualified against the discarded baseline.
    let (state, transitions) = state.on_snapshot(snapshot(&[(key(1), 9)]));
    assert_eq!(transitions.len(), 0);
    assert!(matches!(state, PollState::Steady { .. }));
}
