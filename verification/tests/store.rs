use auth_sqlx_axum::session::{Session, SessionData, SessionId};
use auth_sqlx_axum::store::{SessionStore, StoreError, INACTIVITY_DAYS};

const DAY: u64 = 86_400;

#[test]
fn standard_store_has_a_one_day_window() {
    let store = SessionStore::standard();
    assert_eq!(INACTIVITY_DAYS, 1);
    assert_eq!(store.window(), 86_400);
    assert!(!store.contains(SessionId(1)));
}

#[test]
fn created_session_is_empty_and_expires_one_window_later() {
    let mut store = SessionStore::new(DAY);
    let s = store.create(SessionId(7), 1_000).unwrap();
    assert_eq!(s.id, SessionId(7));
    assert_eq!(s.last_activity, 1_000);
    assert_eq!(s.expiry, 87_400);
    assert_eq!(s.data.identity(), None);
    assert!(s.data.attempt().is_none());
    assert!(s.data.get(&"anything".to_string()).is_none());
    assert!(store.contains(SessionId(7)));
}

#[test]
fn create_refuses_an_id_in_use() {
    let mut store = SessionStore::new(DAY);
    store.create(SessionId(7), 1_000).unwrap();
    let again = store.create(SessionId(7), 2_000);
    assert!(matches!(again, Err(StoreError::IdInUse)));
    let kept = store.load(SessionId(7), 2_000).unwrap();
    assert_eq!(kept.last_activity, 1_000);
}

#[test]
fn load_of_an_unknown_id_is_not_found() {
    let store = SessionStore::new(DAY);
    assert!(matches!(store.load(SessionId(1), 0), Err(StoreError::NotFound)));
}

#[test]
fn saved_session_loads_with_future_expiry_and_same_data() {
    let mut store = SessionStore::new(DAY);
    let mut s = store.create(SessionId(1), 10).unwrap();
    s.data.set_identity(42);
    s.data.insert("theme".to_string(), vec![1, 2, 3]);
    store.save(&mut s, 500);
    assert_eq!(s.last_activity, 500);
    assert_eq!(s.expiry, 500 + DAY);
    let loaded = store.load(s.id, 500).unwrap();
    assert!(loaded.expiry > 500);
    assert_eq!(loaded.expiry, 86_900);
    assert_eq!(loaded.last_activity, 500);
    assert_eq!(loaded.data.identity(), Some(42));
    assert_eq!(loaded.data.get(&"theme".to_string()), Some(&vec![1, 2, 3]));
}

#[test]
fn save_is_an_upsert() {
    let mut store = SessionStore::new(DAY);
    let mut s = Session { id: SessionId(99), data: SessionData::new(), expiry: 0, last_activity: 0 };
    store.save(&mut s, 100);
    assert!(store.contains(SessionId(99)));
    assert_eq!(store.load(SessionId(99), 100).unwrap().expiry, 100 + DAY);
}

#[test]
fn save_is_idempotent() {
    let mut store = SessionStore::new(DAY);
    let mut s = store.create(SessionId(1), 10).unwrap();
    s.data.set_identity(5);
    store.save(&mut s, 20);
    let once = store.load(SessionId(1), 20).unwrap();
    store.save(&mut s, 20);
    let twice = store.load(SessionId(1), 20).unwrap();
    assert_eq!(once.expiry, twice.expiry);
    assert_eq!(once.last_activity, twice.last_activity);
    assert_eq!(once.data.identity(), twice.data.identity());
}

#[test]
fn expiry_slides_with_each_save() {
    let mut store = SessionStore::new(DAY);
    let mut s = store.create(SessionId(1), 0).unwrap();
    assert_eq!(s.expiry, DAY);
    store.save(&mut s, DAY - 1);
    assert_eq!(s.expiry, 2 * DAY - 1);
    assert!(store.load(SessionId(1), DAY + 5).is_ok());
}

#[test]
fn session_is_not_found_once_its_expiry_is_reached() {
    let mut store = SessionStore::new(DAY);
    store.create(SessionId(1), 0).unwrap();
    assert!(store.load(SessionId(1), DAY - 1).is_ok());
    assert!(matches!(store.load(SessionId(1), DAY), Err(StoreError::NotFound)));
    assert!(matches!(store.load(SessionId(1), DAY + 1), Err(StoreError::NotFound)));
    assert!(store.contains(SessionId(1)));
}

#[test]
fn sweep_one_second_past_expiry_removes_the_session() {
    let mut store = SessionStore::new(DAY);
    store.create(SessionId(1), 0).unwrap();
    store.sweep_expired(DAY + 1);
    assert!(!store.contains(SessionId(1)));
    assert!(matches!(store.load(SessionId(1), DAY + 1), Err(StoreError::NotFound)));
}

#[test]
fn sweep_keeps_what_has_not_expired_before_now() {
    let mut store = SessionStore::new(DAY);
    store.create(SessionId(1), 0).unwrap();
    store.create(SessionId(2), 10).unwrap();
    store.create(SessionId(3), 20).unwrap();
    store.create(SessionId(4), 5).unwrap();
    store.sweep_expired(DAY + 10);
    assert!(!store.contains(SessionId(1)));
    assert!(store.contains(SessionId(2)));
    assert!(store.contains(SessionId(3)));
    assert!(!store.contains(SessionId(4)));
    store.sweep_expired(DAY + 10);
    assert!(store.contains(SessionId(2)));
    assert!(store.contains(SessionId(3)));
}

#[test]
fn sweep_of_an_empty_store_does_nothing() {
    let mut store = SessionStore::new(1);
    store.sweep_expired(u64::MAX);
    assert!(!store.contains(SessionId(0)));
}

#[test]
fn delete_removes_and_is_a_no_op_when_absent() {
    let mut store = SessionStore::new(DAY);
    store.create(SessionId(1), 0).unwrap();
    store.create(SessionId(2), 0).unwrap();
    store.delete(SessionId(1));
    assert!(!store.contains(SessionId(1)));
    assert!(store.contains(SessionId(2)));
    store.delete(SessionId(1));
    assert!(!store.contains(SessionId(1)));
    assert!(store.contains(SessionId(2)));
}

#[test]
fn rotate_gives_a_new_id_and_retires_the_old_one() {
    let mut store = SessionStore::new(DAY);
    let mut s = store.create(SessionId(1), 0).unwrap();
    s.data.insert("k".to_string(), vec![9]);
    assert!(store.rotate(&mut s, SessionId(2)).is_ok());
    assert_eq!(s.id, SessionId(2));
    assert_eq!(s.data.get(&"k".to_string()), Some(&vec![9]));
    assert!(!store.contains(SessionId(1)));
    assert!(matches!(store.load(SessionId(1), 1), Err(StoreError::NotFound)));
    store.save(&mut s, 1);
    assert!(store.load(SessionId(2), 1).is_ok());
}

#[test]
fn rotate_refuses_the_same_id_and_an_id_in_use() {
    let mut store = SessionStore::new(DAY);
    let mut s = store.create(SessionId(1), 0).unwrap();
    store.create(SessionId(2), 0).unwrap();
    assert!(matches!(store.rotate(&mut s, SessionId(1)), Err(StoreError::IdInUse)));
    assert!(matches!(store.rotate(&mut s, SessionId(2)), Err(StoreError::IdInUse)));
    assert_eq!(s.id, SessionId(1));
    assert!(store.contains(SessionId(1)));
}

#[test]
fn store_accepts_instants_that_leave_room_for_the_window() {
    let store = SessionStore::new(DAY);
    assert!(store.accepts(0));
    assert!(store.accepts(u64::MAX - DAY));
    assert!(!store.accepts(u64::MAX - DAY + 1));
    assert!(!store.accepts(u64::MAX));
}

#[test]
fn session_is_live_strictly_before_its_expiry() {
    let s = Session { id: SessionId(1), data: SessionData::new(), expiry: 10, last_activity: 0 };
    assert!(s.is_live(9));
    assert!(!s.is_live(10));
    assert!(!s.is_live(11));
}
