use auth_core::SessionError;
use auth_core::SessionStore;

#[test]
fn create_then_remove_succeeds_exactly_once() {
    let mut store = SessionStore::new();
    let now: i64 = 1_700_000_000_000;
    let sid = store.create(7, now, None).unwrap();

    let (removed_id, remaining) = store.remove(sid).unwrap();
    assert_eq!(removed_id, sid);
    assert_eq!(remaining, 0);

    let second = store.remove(sid);
    assert!(matches!(second, Err(SessionError::SessionNotFound)));
}

#[test]
fn remove_unknown_id_fails() {
    let mut store = SessionStore::new();
    let r = store.remove(42);
    assert!(matches!(r, Err(SessionError::SessionNotFound)));
}

#[test]
fn create_uses_default_hour_when_no_duration_given() {
    let mut store = SessionStore::new();
    let now: i64 = 1_700_000_000_000;
    let sid = store.create(9, now, None).unwrap();
    // prune just before the hour is up: the session survives
    let (pruned, remaining) = store.prune_expired(now + 3_600_000);
    assert_eq!((pruned, remaining), (0, 1));
    // one millisecond later it is expired
    let (pruned, remaining) = store.prune_expired(now + 3_600_001);
    assert_eq!((pruned, remaining), (1, 0));
    assert!(matches!(store.remove(sid), Err(SessionError::SessionNotFound)));
}

#[test]
fn prune_expired_counts_add_up() {
    let mut store = SessionStore::new();
    let now: i64 = 1_700_000_000_000;
    // three sessions expiring at now+100, and two at now+10_000
    for _ in 0..3 {
        store.create(1, now, Some(100)).unwrap();
    }
    for _ in 0..2 {
        store.create(2, now, Some(10_000)).unwrap();
    }
    assert_eq!(store.session_count(), 5);

    let (pruned, remaining) = store.prune_expired(now + 101);
    assert_eq!(pruned, 3);
    assert_eq!(remaining, 2);
    assert_eq!(pruned + remaining, 5);
    assert_eq!(store.session_count(), 2);

    // boundary: a session expiring exactly at `now` is kept
    let mut boundary = SessionStore::new();
    boundary.create(3, now, Some(100)).unwrap();
    let (pruned, remaining) = boundary.prune_expired(now + 100);
    assert_eq!((pruned, remaining), (0, 1));
}

#[test]
fn many_creates_yield_distinct_ids_with_no_lost_inserts() {
    let mut store = SessionStore::new();
    let now: i64 = 1_700_000_000_000;
    let mut ids: Vec<u128> = Vec::new();
    for k in 0..50u128 {
        let sid = store.create(k, now, None).unwrap();
        ids.push(sid);
    }
    assert_eq!(store.session_count(), 50);
    for i in 0..ids.len() {
        for j in 0..i {
            assert_ne!(ids[i], ids[j]);
        }
    }
    // every insert landed: each id can be removed exactly once
    for (k, sid) in ids.iter().enumerate() {
        let (removed, _) = store.remove(*sid).unwrap();
        assert_eq!(removed, *sid);
        assert_eq!(store.session_count(), 50 - k - 1);
    }
}

#[test]
fn prune_never_drops_live_entries() {
    let mut store = SessionStore::new();
    let now: i64 = 1_700_000_000_000;
    let stale = store.create(1, now, Some(50)).unwrap();
    let live = store.create(2, now, Some(500_000)).unwrap();
    let (pruned, remaining) = store.prune_expired(now + 1_000);
    assert_eq!((pruned, remaining), (1, 1));
    assert!(matches!(store.remove(stale), Err(SessionError::SessionNotFound)));
    assert!(store.remove(live).is_ok());
}
