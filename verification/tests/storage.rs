use matrix_client::login::publish_session;
use matrix_client::registry::Registry;
use matrix_client::session::{decode_session, encode_session, AuthSession};
use matrix_client::store::SessionStore;

fn sample_session() -> AuthSession {
    AuthSession {
        user_id: "@alice:matrix.org".to_string(),
        device_id: "DEVICE1".to_string(),
        access_token: "SECRET-REDACTED".to_string(),
        refresh_token: Some("refresh-1".to_string()),
    }
}

fn assert_equivalent(a: &AuthSession, b: &AuthSession) {
    assert_eq!(a.user_id, b.user_id);
    assert_eq!(a.device_id, b.device_id);
    assert_eq!(a.access_token, b.access_token);
    assert_eq!(a.refresh_token, b.refresh_token);
}

#[test]
fn codec_round_trips_a_session() {
    let s = sample_session();
    let bytes = encode_session(&s).unwrap();
    let back = decode_session(&bytes).unwrap();
    assert_equivalent(&s, &back);
}

#[test]
fn codec_round_trips_without_refresh_token() {
    let s = AuthSession {
        user_id: "@bob:example.org".to_string(),
        device_id: "D".to_string(),
        access_token: "".to_string(),
        refresh_token: None,
    };
    let bytes = encode_session(&s).unwrap();
    let back = decode_session(&bytes).unwrap();
    assert_equivalent(&s, &back);
}

#[test]
fn corrupt_records_decode_as_absent() {
    assert!(decode_session(b"").is_none());
    assert!(decode_session(b"garbage").is_none());
    let s = sample_session();
    let bytes = encode_session(&s).unwrap();
    assert!(decode_session(&bytes[..bytes.len() - 1]).is_none());
    let mut tagged = bytes.clone();
    let flag_pos = tagged.len() - 1 - 4 - "refresh-1".len();
    tagged[flag_pos] = 9;
    assert!(decode_session(&tagged).is_none());
    let mut extended = bytes.clone();
    extended.push(0);
    assert!(decode_session(&extended).is_none());
}

#[test]
fn save_then_load_round_trips_and_clear_forgets() {
    let path = "/tmp/matrix_client_store_roundtrip";
    let mut store = SessionStore::open(path).unwrap();
    let s = sample_session();
    store.save(&s).unwrap();
    let back = store.load().unwrap();
    assert_equivalent(&s, &back);
    store.clear().unwrap();
    assert!(store.load().is_none());
}

#[test]
fn fresh_store_has_no_session() {
    let path = "/tmp/matrix_client_store_fresh";
    let mut store = SessionStore::open(path).unwrap();
    store.clear().unwrap();
    assert!(store.load().is_none());
}

#[test]
fn publish_makes_the_session_current_and_durable() {
    let path = "/tmp/matrix_client_store_publish";
    let mut store = SessionStore::open(path).unwrap();
    store.clear().unwrap();
    let mut registry: Registry<u32> = Registry::new();
    let s = sample_session();
    publish_session(&mut registry, &mut store, 11, &s).unwrap();
    assert!(registry.is_logged_in());
    assert_eq!(registry.with_client(|c: &u32| *c).unwrap(), 11);
    let back = store.load().unwrap();
    assert_equivalent(&s, &back);
}
