use teams_cli::rules::send_command;
use teams_cli::error::DomainError;
use teams_cli::models::ChatId;
use teams_cli::rules::{html_escape, strip_html, SendMessageCommand, MAX_MESSAGE_CHARS};
use teams_cli::token::{Credentials, StoredToken};

#[test]
fn unauthenticated_display_message() {
    let err = DomainError::Unauthenticated("no token".to_string());
    assert_eq!(err.to_string(), "unauthenticated: no token");
}

#[test]
fn token_expired_display_message() {
    let err = DomainError::TokenExpired("refresh failed".to_string());
    assert_eq!(err.to_string(), "token expired: refresh failed");
}

#[test]
fn not_found_display_message() {
    let err = DomainError::NotFound("chat 42".to_string());
    assert_eq!(err.to_string(), "not found: chat 42");
}

#[test]
fn invalid_display_message() {
    let err = DomainError::Invalid("empty message".to_string());
    assert_eq!(err.to_string(), "invalid input: empty message");
}

#[test]
fn transport_display_message() {
    let err = DomainError::Transport("timeout".to_string());
    assert_eq!(err.to_string(), "transport failure: timeout");
}

#[test]
fn storage_display_message() {
    let err = DomainError::Storage("disk full".to_string());
    assert_eq!(err.to_string(), "storage failure: disk full");
}

#[test]
fn chat_id_rejects_empty_string() {
    let result = ChatId::new("");
    assert!(matches!(result, Err(DomainError::Invalid(_))));
}

#[test]
fn chat_id_rejects_whitespace_only() {
    let result = ChatId::new("   \t\n");
    assert!(matches!(result, Err(DomainError::Invalid(_))));
}

#[test]
fn chat_id_accepts_non_empty() {
    let id = ChatId::new("19:abc@thread.v2").expect("non-empty id should be accepted");
    assert_eq!(id.as_str(), "19:abc@thread.v2");
}

#[test]
fn chat_id_preserves_surrounding_whitespace_when_non_empty() {
    let id = ChatId::new(" x ").expect("non-empty id should be accepted");
    assert_eq!(id.as_str(), " x ");
}

#[test]
fn chat_id_rejection_names_the_rule() {
    match ChatId::new("\u{3000}\u{a0}") {
        Err(DomainError::Invalid(m)) => assert_eq!(m, "chat id must not be empty"),
        other => panic!("expected Invalid, got {other:?}"),
    }
}

fn now_unix() -> u64 {
    std::time::SystemTime::now()
        .duration_since(std::time::UNIX_EPOCH)
        .unwrap()
        .as_secs()
}

#[test]
fn none_expiry_never_expires() {
    let token = StoredToken { token: "t".to_string(), expires_at: None };
    assert!(!token.is_expired());
}

#[test]
fn far_future_expiry_is_not_expired() {
    let token = StoredToken { token: "t".to_string(), expires_at: Some(now_unix() + 3600) };
    assert!(!token.is_expired());
}

#[test]
fn expiry_within_refresh_margin_is_expired() {
    let token = StoredToken { token: "t".to_string(), expires_at: Some(now_unix() + 60) };
    assert!(token.is_expired());
}

#[test]
fn already_past_expiry_is_expired() {
    let token = StoredToken {
        token: "t".to_string(),
        expires_at: Some(now_unix().saturating_sub(10)),
    };
    assert!(token.is_expired());
}

#[test]
fn just_outside_refresh_margin_is_not_expired() {
    let token = StoredToken { token: "t".to_string(), expires_at: Some(now_unix() + 300 + 30) };
    assert!(!token.is_expired());
}

#[test]
fn expiry_at_reference_time_is_exact_at_the_margin() {
    let token = StoredToken { token: "t".to_string(), expires_at: Some(1_000) };
    assert!(!token.is_expired_at(699));
    assert!(!token.is_expired_at(700), "exactly five minutes left is not yet expired");
    assert!(token.is_expired_at(701));
    let early = StoredToken { token: "t".to_string(), expires_at: Some(200) };
    assert!(early.is_expired_at(0));
    let far = StoredToken { token: "t".to_string(), expires_at: Some(u64::MAX) };
    assert!(!far.is_expired_at(u64::MAX - 300));
    assert!(far.is_expired_at(u64::MAX - 299));
    assert!(far.is_expired_at(u64::MAX));
    let past = StoredToken { token: "t".to_string(), expires_at: Some(10) };
    assert!(past.is_expired_at(1_000));
}

#[test]
fn expiry_is_monotonic_on_concrete_times() {
    let token = StoredToken { token: "t".to_string(), expires_at: Some(5_000) };
    let mut seen_expired = false;
    for now in (0..10_000).step_by(50) {
        let e = token.is_expired_at(now);
        assert!(!seen_expired || e, "expired at an earlier time but not at {now}");
        seen_expired = e;
    }
    assert!(seen_expired);
}

#[test]
fn new_at_turns_lifetime_into_absolute_expiry() {
    let t = StoredToken::new_at("tok".to_string(), Some(3600), 1_000);
    assert_eq!(t.token, "tok");
    assert_eq!(t.expires_at, Some(4_600));
    let u = StoredToken::new_at("tok".to_string(), None, 1_000);
    assert_eq!(u.expires_at, None);
}

#[test]
fn new_reads_the_clock_and_saturates() {
    let before = now_unix();
    let t = StoredToken::new("tok".to_string(), Some(3600));
    let exp = t.expires_at.expect("a lifetime gives an expiry");
    assert!(exp >= before + 3600);
    let huge = StoredToken::new("tok".to_string(), Some(u64::MAX));
    assert_eq!(huge.expires_at, Some(u64::MAX));
}

#[test]
fn default_credentials_hold_nothing() {
    let c = Credentials::default();
    assert!(c.access_token.is_none());
    assert!(c.refresh_token.is_none());
    assert!(c.skype_token.is_none());
    assert!(c.graph_token.is_none());
    assert!(c.ic3_token.is_none());
    assert!(c.recorder_token.is_none());
    assert!(c.tenant_id.is_none());
    assert!(c.region_gtms.is_none());
}

#[test]
fn strip_html_removes_tags_and_decodes_entities() {
    assert_eq!(strip_html("<p>Hello <b>team</b> &amp; welcome!</p>"), "Hello team & welcome!");
    assert_eq!(strip_html("hi there"), "hi there");
    assert_eq!(strip_html("a&lt;b&gt;c&quot;d&#39;e&nbsp;f"), "a<b>c\"d'e f");
    assert_eq!(strip_html("&amp;lt;"), "<");
    assert_eq!(strip_html("x > y"), "x  y");
}

#[test]
fn html_escape_escapes_the_five_characters() {
    assert_eq!(html_escape("a & b < c > d \" e ' f"), "a &amp; b &lt; c &gt; d &quot; e &#39; f");
    assert_eq!(html_escape("plain"), "plain");
    assert_eq!(html_escape(""), "");
}

#[test]
fn strip_html_undoes_html_escape_on_tag_free_text() {
    for x in ["quotes \" and ' here", "tom \"jerry\"", "it's", "", "naïve café"] {
        assert_eq!(strip_html(&html_escape(x)), x);
    }
}

#[test]
fn send_message_command_validates_text() {
    let chat = ChatId::new("19:abc").unwrap();
    match SendMessageCommand::new(chat.clone(), "  \n") {
        Err(DomainError::Invalid(m)) => assert_eq!(m, "message must not be empty"),
        other => panic!("expected Invalid, got {other:?}"),
    }
    let long = "x".repeat(MAX_MESSAGE_CHARS + 1);
    match SendMessageCommand::new(chat.clone(), &long) {
        Err(DomainError::Invalid(m)) => assert_eq!(m, "message must be at most 28000 characters"),
        other => panic!("expected Invalid, got {other:?}"),
    }
    let exact = "é".repeat(MAX_MESSAGE_CHARS);
    assert!(SendMessageCommand::new(chat.clone(), &exact).is_ok());
    let cmd = SendMessageCommand::new(chat, " hi ").unwrap();
    assert_eq!(cmd.text, " hi ");
    assert_eq!(cmd.chat_id.as_str(), "19:abc");
}

#[test]
fn send_command_checks_the_chat_id_first() {
    match send_command(" ", "") {
        Err(DomainError::Invalid(m)) => assert_eq!(m, "chat id must not be empty"),
        other => panic!("expected Invalid, got {other:?}"),
    }
    match send_command("19:a", "") {
        Err(DomainError::Invalid(m)) => assert_eq!(m, "message must not be empty"),
        other => panic!("expected Invalid, got {other:?}"),
    }
    let cmd = send_command("19:a", "hi").unwrap();
    assert_eq!((cmd.chat_id.as_str(), cmd.text.as_str()), ("19:a", "hi"));
}
