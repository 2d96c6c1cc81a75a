use ratelimit::store::memory::MemoryStore;
use ratelimit::store::LocalStore;
use ratelimit::strategy::fixed_window::FixedWindowCounterState;
use ratelimit::strategy::LimitResult;

#[test]
fn get_of_a_never_set_key_is_none() {
    let store: MemoryStore<u64> = MemoryStore::new();
    assert_eq!(store.get("missing").unwrap(), None);
}

#[test]
fn set_then_get_returns_the_stored_state() {
    let mut store: MemoryStore<FixedWindowCounterState> = MemoryStore::new();
    store.set("k", FixedWindowCounterState { count: 2, window_start: 7 }).unwrap();
    let got = store.get("k").unwrap().unwrap();
    assert_eq!(got.count, 2);
    assert_eq!(got.window_start, 7);
}

#[test]
fn set_replaces_the_state_in_full() {
    let mut store: MemoryStore<u64> = MemoryStore::new();
    store.set("k", 1).unwrap();
    store.set("k", 9).unwrap();
    assert_eq!(store.get("k").unwrap(), Some(9));
}

#[test]
fn clear_then_get_returns_nothing() {
    let mut store: MemoryStore<u64> = MemoryStore::new();
    store.set("k", 5).unwrap();
    store.clear("k").unwrap();
    assert_eq!(store.get("k").unwrap(), None);

    // clearing a key that was never set is also fine
    store.clear("other").unwrap();
    assert_eq!(store.get("other").unwrap(), None);
}

#[test]
fn distinct_keys_hold_distinct_states() {
    let mut store: MemoryStore<u64> = MemoryStore::new();
    store.set("a", 1).unwrap();
    store.set("b", 2).unwrap();
    store.clear("a").unwrap();
    assert_eq!(store.get("a").unwrap(), None);
    assert_eq!(store.get("b").unwrap(), Some(2));
}

#[test]
fn default_store_is_empty() {
    let store: MemoryStore<u64> = Default::default();
    assert_eq!(store.get("anything").unwrap(), None);
}

#[test]
fn limit_result_constructors_and_accessors() {
    let allowed: LimitResult<u64> = LimitResult::allowed();
    assert!(allowed.is_allowed());
    assert!(allowed.metadata().is_none());

    let denied: LimitResult<u64> = LimitResult::disallowed();
    assert!(!denied.is_allowed());
    assert!(denied.metadata().is_none());

    let with_meta = LimitResult::disallowed().with_metadata(42u64);
    assert!(!with_meta.is_allowed());
    assert_eq!(with_meta.metadata(), Some(&42));

    let allowed_meta = LimitResult::allowed().with_metadata(7u64);
    assert!(allowed_meta.is_allowed());
    assert_eq!(allowed_meta.metadata(), Some(&7));
}
