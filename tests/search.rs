use g3k::search::{check_workers, estimate_total, first_result};
use g3k::{SearchError, SearchState, Timestamp, Worker};

#[test]
fn zero_workers_fail() {
    assert_eq!(check_workers(0), Err(SearchError::NoWorkersSpawned));
    assert_eq!(check_workers(1), Ok(()));
    assert_eq!(first_result(0, Some(("x", 3))), Err(SearchError::NoWorkersSpawned));
}

#[test]
fn all_workers_gone_is_channel_closed() {
    assert_eq!(first_result::<&str>(4, None), Err(SearchError::ChannelClosed));
}

#[test]
fn estimate_multiplies_and_saturates() {
    assert_eq!(estimate_total(171, 1), 171);
    assert_eq!(estimate_total(10, 8), 80);
    assert_eq!(estimate_total(u64::MAX / 2 + 1, 2), u64::MAX);
    assert_eq!(first_result(3, Some(("k", 5))), Ok(("k", 15)));
}

/// Stub fingerprint: the iteration number as hexadecimal text.
fn stub_fingerprint(iteration: u64) -> String {
    format!("{:x}", iteration)
}

#[test]
fn stub_search_stops_at_known_iteration() {
    let start = 1_700_000_000i64;
    let mut state = SearchState::new(1000);
    let mut created = Timestamp::from_secs(start).unwrap();
    let mut reported = None;
    while reported.is_none() {
        assert!(!state.needs_anchor());
        created.backflow();
        let fp = stub_fingerprint(state.iterations());
        reported = state.record(&fp, "ab");
    }
    assert_eq!(reported, Some(0xab));
    assert_eq!(state.iterations(), 0xab + 1);
    assert_eq!(state.backflow(), 0xab + 1);
    assert_eq!(created.secs(), start - (0xab + 1));
}

#[test]
fn budget_forces_reanchor() {
    let mut state = SearchState::new(2);
    assert_eq!(state.record("00", "ff"), None);
    assert_eq!(state.record("ff", "ff"), Some(1));
    assert!(state.needs_anchor());
    state.reanchor();
    assert_eq!(state.backflow(), 0);
    assert_eq!(state.iterations(), 2);
    assert_eq!(state.max_backflow(), 2);
}

/// Simulates `workers` workers in turn; only `rigged` ever sees a matching
/// fingerprint, at its own iteration `at`.
fn rigged_search(workers: usize, rigged: usize, at: u64) -> Result<(usize, u64), SearchError> {
    check_workers(workers)?;
    let mut states: Vec<SearchState> = (0..workers).map(|_| SearchState::new(1000)).collect();
    let mut first = None;
    'outer: for _ in 0..1000 {
        for (w, state) in states.iter_mut().enumerate() {
            let fp = if w == rigged && state.iterations() == at { "c0ffee" } else { "000000" };
            if let Some(it) = state.record(fp, "ffee") {
                first = Some((w, it));
                break 'outer;
            }
        }
    }
    first_result(workers, first)
}

#[test]
fn first_result_wins_for_any_worker_count() {
    assert_eq!(rigged_search(1, 0, 7), Ok((0, 7)));
    assert_eq!(rigged_search(2, 1, 7), Ok((1, 14)));
    assert_eq!(rigged_search(8, 5, 7), Ok((5, 56)));
    assert_eq!(rigged_search(0, 0, 7), Err(SearchError::NoWorkersSpawned));
}

#[test]
fn worker_with_empty_target_reports_first_step() {
    let anchor = Timestamp::from_secs(1_700_000_000).unwrap();
    let mut w = Worker::new("test", "", 5, anchor);
    let found = w.step(anchor).unwrap().expect("empty target matches");
    assert_eq!(found.iterations, 0);
    assert_eq!(found.candidate.created_at().secs(), anchor.secs() - 1);
    assert_eq!(found.candidate.fingerprint().unwrap(), found.fingerprint);
    assert_eq!(w.last_fingerprint(), found.fingerprint);
    assert_eq!(w.state().iterations(), 1);
}

#[test]
fn worker_reanchors_when_budget_spent() {
    let anchor = Timestamp::from_secs(1_700_000_000).unwrap();
    let later = Timestamp::from_secs(1_700_000_100).unwrap();
    let mut w = Worker::new("test", "not hex", 2, anchor);
    assert!(w.step(later).unwrap().is_none());
    assert!(w.step(later).unwrap().is_none());
    assert_eq!(w.candidate().created_at().secs(), anchor.secs() - 2);
    assert!(w.step(later).unwrap().is_none());
    assert_eq!(w.anchor(), later);
    assert_eq!(w.candidate().created_at().secs(), later.secs() - 1);
    assert_eq!(w.state().backflow(), 1);
    assert_eq!(w.state().iterations(), 3);
}

#[test]
fn worker_without_budget_does_no_work() {
    let anchor = Timestamp::from_secs(1_700_000_000).unwrap();
    let mut w = Worker::new("test", "", 0, anchor);
    assert!(w.step(anchor).unwrap().is_none());
    assert_eq!(w.state().iterations(), 0);
    assert_eq!(w.candidate().generated_at(), None);
}
