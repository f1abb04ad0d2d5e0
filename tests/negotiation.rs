use nu_plugin_pg::error::{DbError, PgError};
use nu_plugin_pg::negotiate::{Negotiation, SslMode, Step, Transport};

fn err(m: &str) -> PgError {
    PgError::new(m.to_string())
}

#[test]
fn prefer_falls_back_to_plaintext() {
    let (n, s) = Negotiation::start(SslMode::Prefer);
    assert_eq!(s, Step::Attempt(Transport::Tls));
    let (n, s) = n.advance(Err(err("tls handshake failed")));
    assert_eq!(s, Step::Attempt(Transport::Plain));
    let (n, s) = n.advance(Ok(()));
    assert_eq!(s, Step::Connected(Transport::Plain));
    assert_eq!(n, Negotiation::Finished);
}

#[test]
fn prefer_keeps_both_failures() {
    let (n, _) = Negotiation::start(SslMode::Prefer);
    let (n, _) = n.advance(Err(err("tls handshake failed")));
    let (_, s) = n.advance(Err(err("connection refused")));
    match s {
        Step::Fail(e) => {
            assert_eq!(e.msg, "could not connect with TLS nor without it");
            assert_eq!(e.inner, vec![err("tls handshake failed"), err("connection refused")]);
        }
        other => panic!("unexpected {:?}", other),
    }
}

#[test]
fn prefer_tls_success_connects_with_tls() {
    let (n, _) = Negotiation::start(SslMode::Prefer);
    let (_, s) = n.advance(Ok(()));
    assert_eq!(s, Step::Connected(Transport::Tls));
}

#[test]
fn require_does_not_fall_back() {
    let (n, s) = Negotiation::start(SslMode::Require);
    assert_eq!(s, Step::Attempt(Transport::Tls));
    let (n, s) = n.advance(Err(err("bad certificate")));
    assert_eq!(s, Step::Fail(err("bad certificate")));
    assert_eq!(n, Negotiation::Finished);
}

#[test]
fn disable_uses_plaintext_only() {
    let (n, s) = Negotiation::start(SslMode::Disable);
    assert_eq!(s, Step::Attempt(Transport::Plain));
    let (_, s) = n.advance(Err(err("refused")));
    assert_eq!(s, Step::Fail(err("refused")));
}

#[test]
fn unimplemented_mode_fails_at_once() {
    let (n, s) = Negotiation::start(SslMode::Unimplemented);
    assert_eq!(n, Negotiation::Finished);
    assert_eq!(s, Step::Fail(err("the requested sslmode is not implemented")));
}

#[test]
fn database_errors_keep_server_code() {
    let e = PgError::from_database(
        "db error".to_string(),
        Some(DbError { message: "ERROR: relation \"t\" does not exist".to_string(), code: "42P01".to_string() }),
    );
    assert_eq!(e.msg, "ERROR: relation \"t\" does not exist");
    assert_eq!(e.code, Some("42P01".to_string()));
    let e = PgError::from_database("connection reset".to_string(), None);
    assert_eq!(e.msg, "connection reset");
    assert_eq!(e.code, None);
}

#[test]
fn config_error_points_at_url_grammar() {
    let e = PgError::config("invalid connection string".to_string());
    assert_eq!(e.msg, "invalid connection string");
    assert_eq!(
        e.help,
        Some("The allowed syntax for `PG_URL` can be found at\nhttps://docs.rs/postgres/0.19.7/postgres/config/struct.Config.html#url".to_string())
    );
    assert_eq!(e.code, None);
    assert!(e.inner.is_empty());
}
