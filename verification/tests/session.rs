use auth_sqlx_axum::session::{OAuthAttempt, SessionData};

fn key(s: &str) -> String {
    s.to_string()
}

#[test]
fn new_data_holds_nothing() {
    let data = SessionData::new();
    assert_eq!(data.identity(), None);
    assert!(data.attempt().is_none());
    assert!(data.get(&key("a")).is_none());
}

#[test]
fn insert_overwrites_and_never_merges() {
    let mut data = SessionData::new();
    data.insert(key("a"), vec![1]);
    data.insert(key("b"), vec![2]);
    data.insert(key("a"), vec![3, 4]);
    assert_eq!(data.get(&key("a")), Some(&vec![3, 4]));
    assert_eq!(data.get(&key("b")), Some(&vec![2]));
    assert!(data.get(&key("c")).is_none());
}

#[test]
fn remove_deletes_one_key_only() {
    let mut data = SessionData::new();
    data.insert(key("a"), vec![1]);
    data.insert(key("b"), vec![2]);
    data.insert(key("c"), vec![3]);
    data.remove(&key("b"));
    assert_eq!(data.get(&key("a")), Some(&vec![1]));
    assert!(data.get(&key("b")).is_none());
    assert_eq!(data.get(&key("c")), Some(&vec![3]));
    data.remove(&key("b"));
    data.remove(&key("zzz"));
    assert_eq!(data.get(&key("a")), Some(&vec![1]));
}

#[test]
fn a_new_identity_takes_the_place_of_the_old_one() {
    let mut data = SessionData::new();
    data.set_identity(1);
    data.set_identity(2);
    assert_eq!(data.identity(), Some(2));
    data.clear_identity();
    assert_eq!(data.identity(), None);
}

#[test]
fn one_attempt_is_pending_at_a_time() {
    let mut data = SessionData::new();
    data.set_attempt(OAuthAttempt { csrf_state: key("first"), created_at: 1 });
    data.set_attempt(OAuthAttempt { csrf_state: key("second"), created_at: 2 });
    assert_eq!(
        data.attempt(),
        Some(&OAuthAttempt { csrf_state: key("second"), created_at: 2 })
    );
    let taken = data.take_attempt();
    assert_eq!(taken, Some(OAuthAttempt { csrf_state: key("second"), created_at: 2 }));
    assert!(data.attempt().is_none());
    assert!(data.take_attempt().is_none());
}

#[test]
fn a_copy_holds_the_same_data() {
    let mut data = SessionData::new();
    data.set_identity(8);
    data.set_attempt(OAuthAttempt { csrf_state: key("s"), created_at: 3 });
    data.insert(key("a"), vec![1, 2]);
    let copy = data.clone();
    data.insert(key("a"), vec![]);
    assert_eq!(copy.identity(), Some(8));
    assert_eq!(copy.attempt(), Some(&OAuthAttempt { csrf_state: key("s"), created_at: 3 }));
    assert_eq!(copy.get(&key("a")), Some(&vec![1, 2]));
}
