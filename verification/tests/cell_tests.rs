use coincap_cache::caching::Cached;
use coincap_cache::caching::Refresh;
use coincap_cache::CacheError;
use coincap_cache::RefreshError;

pub struct MockObj(pub usize);

impl Refresh for MockObj {
    fn refresh(&self) -> Result<Self, RefreshError> {
        Ok(MockObj(self.0 + 1))
    }
}

struct Failing(u32);

impl Refresh for Failing {
    fn refresh(&self) -> Result<Self, RefreshError> {
        Err(RefreshError::from_str("source unreachable"))
    }
}

#[test]
fn refreshed_deref() {
    let mut ch = Cached::new(MockObj(0), 1);
    // two seconds on the cell's clock, one past the timeout
    assert_eq!(ch.checked_deref_at(2).unwrap().0, 1);
}

#[test]
fn deref_check() {
    let ch = Cached::new("ato".to_string(), 1);
    assert_eq!("pot".to_string() + ch.deref(), "potato");
}

#[test]
fn time_check() {
    let cached_data = Cached::new(String::new(), 1);
    assert!(!cached_data.has_timed_out_at(0));
    assert!(cached_data.has_timed_out_at(2));
}

#[test]
fn neverexpire_check() {
    let cached_data = Cached::new(String::new(), 0);
    assert!(!cached_data.has_timed_out_at(0));
    assert!(!cached_data.has_timed_out_at(2));
    assert!(!cached_data.has_timed_out_at(u64::MAX));
}

#[test]
fn fresh_until_strictly_past_timeout() {
    let ch = Cached::new((), 5);
    assert!(!ch.has_timed_out_at(0));
    assert!(!ch.has_timed_out_at(5));
    assert!(ch.has_timed_out_at(6));
}

#[test]
fn successful_refresh_resets_freshness() {
    let mut ch = Cached::new(MockObj(0), 1);
    let refreshed: usize = ch.checked_deref_at(2).unwrap().0;
    assert_eq!(refreshed, 1);
    // the refresh stamped the cell at second 2, so it is fresh again
    assert!(!ch.has_timed_out_at(2));
    assert_eq!(ch.age_at(3), 1);
    assert_eq!(ch.deref().0, 1);
    // exactly one refresh per stale read: a fresh read changes nothing
    assert_eq!(ch.checked_deref_at(3).unwrap().0, 1);
}

#[test]
fn failed_refresh_leaves_cell_unchanged() {
    let mut ch = Cached::new(Failing(7), 1);
    match ch.checked_deref_at(2) {
        Err(CacheError::RefreshFailed(cause)) => {
            assert_eq!(cause.0, "source unreachable");
        }
        _ => panic!("stale read with failing refresh must report the failure"),
    }
    // no partial update: value and timestamp are exactly as before,
    // so an identical read fails identically
    assert_eq!(ch.deref().0, 7);
    assert_eq!(ch.age_at(2), 2);
    assert!(ch.has_timed_out_at(2));
    assert!(matches!(ch.checked_deref_at(2), Err(CacheError::RefreshFailed(_))));
}

#[test]
fn fresh_read_does_not_refresh() {
    let mut ch = Cached::new(MockObj(0), 10);
    assert_eq!(ch.checked_deref_at(10).unwrap().0, 0);
    assert_eq!(ch.age_at(10), 10);
}

#[test]
fn immortal_read_never_refreshes() {
    let mut ch = Cached::new(MockObj(3), 0);
    assert_eq!(ch.checked_deref_at(u64::MAX).unwrap().0, 3);
    assert_eq!(ch.deref().0, 3);
}

#[test]
fn immediate_checked_deref_succeeds() {
    let mut ch = Cached::new(MockObj(0), 1);
    assert_eq!(ch.checked_deref().unwrap().0, 0);
    assert!(!ch.has_timed_out());
    assert!(ch.ttl() <= 1);
}
