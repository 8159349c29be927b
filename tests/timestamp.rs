use g3k::timestamp::{MAX_SECS, MIN_SECS};
use g3k::Timestamp;

#[test]
fn from_secs_checks_range() {
    assert_eq!(Timestamp::from_secs(0).map(|t| t.secs()), Some(0));
    assert_eq!(Timestamp::from_secs(MIN_SECS).map(|t| t.secs()), Some(MIN_SECS));
    assert_eq!(Timestamp::from_secs(MAX_SECS).map(|t| t.secs()), Some(MAX_SECS));
    assert!(Timestamp::from_secs(MIN_SECS - 1).is_none());
    assert!(Timestamp::from_secs(MAX_SECS + 1).is_none());
    assert!(Timestamp::from_secs(i64::MIN).is_none());
}

#[test]
fn backflow_moves_one_second_back() {
    let mut t = Timestamp::from_secs(1_700_000_000).unwrap();
    t.backflow();
    assert_eq!(t.secs(), 1_699_999_999);
}

#[test]
fn max_backflow_steps_move_back_max_backflow_seconds() {
    let start = 1_700_000_000i64;
    let mut t = Timestamp::from_secs(start).unwrap();
    let max_backflow = 2_592_000usize;
    for _ in 0..max_backflow {
        t.backflow();
    }
    assert_eq!(start - t.secs(), max_backflow as i64);
}

#[test]
fn backflow_stops_at_lower_bound() {
    let t = Timestamp::from_secs(MIN_SECS + 1).unwrap();
    assert!(t.can_backflow());
    let mut u = t;
    u.backflow();
    assert_eq!(u.secs(), MIN_SECS);
    assert!(!u.can_backflow());
}
