use db_pool::id::DatabaseId;
use db_pool::store::RetainedConnections;

#[test]
fn take_returns_the_retained_connection() {
    let mut store = RetainedConnections::new();
    let a = DatabaseId { value: 1 };
    let b = DatabaseId { value: 2 };
    store.retain(a, "conn-a".to_string());
    store.retain(b, "conn-b".to_string());
    assert_eq!(store.take(a), "conn-a");
    assert!(!store.contains(a));
    assert!(store.contains(b));
    assert_eq!(store.len(), 1);
}

#[test]
fn clean_round_trip_keeps_the_store() {
    let mut store = RetainedConnections::new();
    let a = DatabaseId { value: 7 };
    store.retain(a, 42u32);
    let conn = store.take(a);
    store.retain(a, conn);
    assert!(store.contains(a));
    assert_eq!(store.take(a), 42);
}

#[test]
fn take_after_drop_finds_nothing() {
    let mut store = RetainedConnections::new();
    let a = DatabaseId { value: 9 };
    store.retain(a, 1u8);
    assert_eq!(store.try_take(a), Some(1));
    assert_eq!(store.try_take(a), None);
    assert!(!store.contains(a));
}

#[test]
fn teardown_mode_follows_what_was_retained() {
    let mut store = RetainedConnections::new();
    let a = DatabaseId { value: 3 };
    assert_eq!(store.teardown_mode(a), db_pool::lifecycle::PrivilegeMode::Unrestricted);
    store.retain(a, ());
    assert_eq!(store.teardown_mode(a), db_pool::lifecycle::PrivilegeMode::Restricted);
}
