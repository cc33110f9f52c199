use std::fmt;

use teams_cli::error::DomainError;
use teams_cli::http::{map_err, status_to_domain, HttpStatusError, InfraError};

/// Carries an `HttpStatusError` through an `anyhow::Error` chain.
#[derive(Debug)]
struct Carried(HttpStatusError);

impl fmt::Display for Carried {
    fn fmt(&self, f: &mut fmt::Formatter<'_>) -> fmt::Result {
        f.write_str(&self.0.to_string())
    }
}

impl std::error::Error for Carried {}

#[test]
fn http_status_error_401_display_matches_legacy() {
    let err = HttpStatusError {
        status: 401,
        url: "https://example.com/x".to_string(),
        body: String::new(),
    };
    assert_eq!(
        err.to_string(),
        "401 Unauthorized for https://example.com/x. Token may be invalid -- run 'teams-cli login'."
    );
}

#[test]
fn http_status_error_other_display_matches_legacy() {
    let err = HttpStatusError {
        status: 404,
        url: "https://example.com/y".to_string(),
        body: "missing".to_string(),
    };
    assert_eq!(err.to_string(), "HTTP 404 for https://example.com/y: missing");
}

#[test]
fn http_status_error_is_downcastable_through_anyhow() {
    let err: anyhow::Error = Carried(HttpStatusError {
        status: 404,
        url: "https://example.com/z".to_string(),
        body: String::new(),
    })
    .into();
    let downcast = err.downcast_ref::<Carried>();
    assert_eq!(downcast.map(|e| e.0.status), Some(404));
}

#[test]
fn map_err_401_is_unauthenticated() {
    let err = InfraError::from_http(HttpStatusError {
        status: 401,
        url: "https://example.com/a".into(),
        body: String::new(),
    });
    assert!(matches!(map_err(err), DomainError::Unauthenticated(_)));
}

#[test]
fn map_err_404_is_not_found() {
    let err = InfraError::from_http(HttpStatusError {
        status: 404,
        url: "https://example.com/b".into(),
        body: "missing".into(),
    });
    assert!(matches!(map_err(err), DomainError::NotFound(_)));
}

#[test]
fn map_err_other_status_is_transport() {
    let err = InfraError::from_http(HttpStatusError {
        status: 500,
        url: "https://example.com/c".into(),
        body: "boom".into(),
    });
    assert!(matches!(map_err(err), DomainError::Transport(_)));
}

#[test]
fn map_err_status_survives_added_context() {
    let err = InfraError::from_http(HttpStatusError {
        status: 401,
        url: "https://example.com/d".into(),
        body: String::new(),
    })
    .context("Teams GET failed");
    assert!(matches!(map_err(err), DomainError::Unauthenticated(_)));
}

#[test]
fn map_err_non_http_error_is_transport() {
    let err = InfraError::msg("connection timed out");
    assert!(matches!(map_err(err), DomainError::Transport(_)));
}

#[test]
fn map_err_keeps_the_whole_message_chain() {
    let err = InfraError::from_http(HttpStatusError {
        status: 503,
        url: "https://example.com/e".into(),
        body: "down".into(),
    })
    .context("Chat GET https://example.com/e failed");
    match map_err(err) {
        DomainError::Transport(m) => {
            assert_eq!(m, "Chat GET https://example.com/e failed: HTTP 503 for https://example.com/e: down")
        }
        other => panic!("expected Transport, got {other:?}"),
    }
}

#[test]
fn status_to_domain_classifies_each_status() {
    assert!(matches!(status_to_domain(401, "a".into()), DomainError::Unauthenticated(m) if m == "a"));
    assert!(matches!(status_to_domain(404, "b".into()), DomainError::NotFound(m) if m == "b"));
    assert!(matches!(status_to_domain(403, "c".into()), DomainError::Transport(m) if m == "c"));
    assert!(matches!(status_to_domain(200, "d".into()), DomainError::Transport(_)));
}

#[test]
fn infra_error_from_http_keeps_status_and_display() {
    let e = InfraError::from_http(HttpStatusError {
        status: 401,
        url: "u".into(),
        body: "ignored".into(),
    });
    assert_eq!(e.status, Some(401));
    assert_eq!(e.message, "401 Unauthorized for u. Token may be invalid -- run 'teams-cli login'.");
    let m = InfraError::msg("dns failure");
    assert_eq!(m.status, None);
    assert_eq!(m.message, "dns failure");
}
