use ocw_worker::cache::CacheKey;
use ocw_worker::cache::DurableStore;
use ocw_worker::cache::Moment;
use ocw_worker::errors::LockError;
use ocw_worker::window::RollingWindow;

#[test]
fn window_never_exceeds_ten_and_evicts_the_oldest() {
    let mut w: RollingWindow<u64> = RollingWindow::new();
    for v in 1..=11u64 {
        w.push(v);
        assert!(w.len() <= 10);
    }
    assert_eq!(w.len(), 10);
    for i in 0..10usize {
        assert_eq!(*w.get(i), (i as u64) + 2);
    }
}

#[test]
fn window_keeps_arrival_order_below_capacity() {
    let mut w: RollingWindow<u64> = RollingWindow::new();
    w.push(5);
    w.push(3);
    w.push(9);
    assert_eq!(w.len(), 3);
    assert_eq!(*w.get(0), 5);
    assert_eq!(*w.get(1), 3);
    assert_eq!(*w.get(2), 9);
}

#[test]
fn second_acquire_before_expiry_fails() {
    let mut store = DurableStore::new();
    let first = store.acquire(CacheKey::Price, Moment { block: 1, time_ms: 0 }, 3, 4000);
    assert_eq!(first, Ok(()));
    // Neither the block expiry (1 + 3 = 4) nor the wall-clock expiry
    // (0 + 4000) has passed: exactly one of the two claims won.
    let second = store.acquire(CacheKey::Price, Moment { block: 2, time_ms: 1000 }, 3, 4000);
    assert_eq!(second, Err(LockError::AlreadyHeld));
    // Held as long as either expiry is still to come.
    let third = store.acquire(CacheKey::Price, Moment { block: 4, time_ms: 3999 }, 3, 4000);
    assert_eq!(third, Err(LockError::AlreadyHeld));
}

#[test]
fn acquire_succeeds_after_both_expiries() {
    let mut store = DurableStore::new();
    assert_eq!(store.acquire(CacheKey::Price, Moment { block: 1, time_ms: 0 }, 3, 4000), Ok(()));
    // Both expiries passed: the lock has lapsed, purely by TTL.
    let again = store.acquire(CacheKey::Price, Moment { block: 4, time_ms: 4000 }, 3, 4000);
    assert_eq!(again, Ok(()));
}

#[test]
fn locks_are_per_key() {
    let mut store = DurableStore::new();
    assert_eq!(store.acquire(CacheKey::Price, Moment { block: 1, time_ms: 0 }, 3, 4000), Ok(()));
    assert_eq!(store.acquire(CacheKey::Metadata, Moment { block: 1, time_ms: 0 }, 3, 4000), Ok(()));
}

#[test]
fn cache_set_then_get_returns_the_blob() {
    let mut store = DurableStore::new();
    assert_eq!(store.get(CacheKey::Metadata), None);
    store.set(CacheKey::Metadata, vec![1, 2, 3]);
    // Reading never requires holding the lock.
    assert_eq!(store.get(CacheKey::Metadata), Some(vec![1, 2, 3]));
    assert_eq!(store.get(CacheKey::Price), None);
    // Replaced, not merged.
    store.set(CacheKey::Metadata, vec![9]);
    assert_eq!(store.get(CacheKey::Metadata), Some(vec![9]));
}
