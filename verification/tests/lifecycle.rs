use matrix_client::listener::{reserve_port, CaptureSession};
use matrix_client::login::begin_logout;
use matrix_client::registry::Registry;
use matrix_client::AuthError;

#[test]
fn capture_attempt_tolerates_probes_then_captures_once() {
    let mut attempt = CaptureSession::start(4040);
    attempt.mark_listening();

    let probe = attempt.handle_connection(b"GET /favicon.ico HTTP/1.1\r\n\r\n");
    assert!(!probe.success);
    assert!(probe.page.starts_with("HTTP/1.1 401 Unauthorized"));

    let probe2 = attempt.handle_connection(b"OPTIONS * HTTP/1.1\r\n\r\n");
    assert!(!probe2.success);

    let hit = attempt.handle_connection(b"GET /?loginToken=abc123 HTTP/1.1\r\nHost: localhost\r\n\r\n");
    assert!(hit.success);
    assert!(hit.page.starts_with("HTTP/1.1 200 OK"));
    assert!(attempt.has_token());
    assert!(!attempt.is_listening());

    attempt.close();
    assert_eq!(attempt.into_token(), Some("abc123".to_string()));
}

#[test]
fn failed_attempt_yields_no_token() {
    let mut attempt = CaptureSession::start(4041);
    attempt.mark_listening();
    let probe = attempt.handle_connection(b"GET / HTTP/1.1\r\n\r\n");
    assert!(!probe.success);
    attempt.fail();
    attempt.close();
    assert_eq!(attempt.into_token(), None);
}

#[test]
fn sequential_attempts_are_independent() {
    let mut first = CaptureSession::start(5050);
    first.mark_listening();
    let hit = first.handle_connection(b"GET /?loginToken=one HTTP/1.1\r\n\r\n");
    assert!(hit.success);
    first.close();
    assert_eq!(first.into_token(), Some("one".to_string()));

    let mut second = CaptureSession::start(5051);
    second.mark_listening();
    let miss = second.handle_connection(b"GET / HTTP/1.1\r\n\r\n");
    assert!(!miss.success);
    let hit2 = second.handle_connection(b"GET /?loginToken=two HTTP/1.1\r\n\r\n");
    assert!(hit2.success);
    second.close();
    assert_eq!(second.into_token(), Some("two".to_string()));
}

#[test]
fn ports_can_be_reserved_for_each_attempt() {
    let a = reserve_port();
    let b = reserve_port();
    assert!(a.is_ok());
    assert!(b.is_ok());
}

#[test]
fn with_client_observes_replaced_client() {
    let mut registry: Registry<u32> = Registry::new();
    assert!(!registry.is_logged_in());
    assert!(registry.replace(41).is_none());
    assert!(registry.is_logged_in());
    assert_eq!(registry.with_client(|c: &u32| *c).unwrap(), 41);
    assert_eq!(registry.replace(42), Some(41));
    assert_eq!(registry.with_client(|c: &u32| *c).unwrap(), 42);
}

#[test]
fn with_client_fails_after_take_until_replace() {
    let mut registry: Registry<u32> = Registry::new();
    registry.replace(7);
    assert_eq!(registry.take(), Some(7));
    assert!(matches!(
        registry.with_client(|c: &u32| *c),
        Err(AuthError::NotLoggedIn)
    ));
    assert!(matches!(
        registry.with_client(|c: &u32| *c),
        Err(AuthError::NotLoggedIn)
    ));
    registry.replace(8);
    assert_eq!(registry.with_client(|c: &u32| *c).unwrap(), 8);
}

#[test]
fn error_messages_preserve_the_reported_reason() {
    assert_eq!(AuthError::NotLoggedIn.message(), "not logged in");
    assert_eq!(
        AuthError::AuthExchange("token expired".to_string()).message(),
        "failed to log in: token expired"
    );
    assert_eq!(
        AuthError::NoPortAvailable.message(),
        "cannot start login: no free local port"
    );
}

#[test]
fn logout_empties_the_registry_once() {
    let mut registry: Registry<&str> = Registry::new();
    registry.replace("client");
    assert_eq!(begin_logout(&mut registry).unwrap(), "client");
    assert!(matches!(
        begin_logout(&mut registry),
        Err(AuthError::NotLoggedIn)
    ));
}
