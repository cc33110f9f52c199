use std::time::Duration;

use teams_cli::error::DomainError;
use teams_cli::http::InfraError;
use teams_cli::models::RealtimeEvent;
use teams_cli::realtime::{
    backoff_delay, backoff_secs, exhausted_error, ReconnectPolicy, ReconnectStep,
    MAX_BACKOFF_SECS, MAX_RECONNECT_ATTEMPTS, MIN_BACKOFF_SECS,
};
use teams_cli::trouter::{
    event_from_document, event_from_payload, frame_line, frame_to_event, listener_token, map_err,
    session_end,
    session_step, session_token, ListenerBackoff, SessionAction, SessionEnd, SessionEvent,
    SessionPhase, TungsteniteRealtime, RE_REGISTER_SECS,
};
use teams_cli::json::Json;
use teams_cli::token::StoredToken;

#[test]
fn backoff_schedule_is_1s_to_60s_capped() {
    assert_eq!(backoff_delay(1), Duration::from_secs(1));
    assert_eq!(backoff_delay(2), Duration::from_secs(2));
    assert_eq!(backoff_delay(3), Duration::from_secs(4));
    assert_eq!(backoff_delay(4), Duration::from_secs(8));
    assert_eq!(backoff_delay(5), Duration::from_secs(16));
    assert_eq!(backoff_delay(6), Duration::from_secs(32));
    assert_eq!(backoff_delay(7), Duration::from_secs(60));
    assert_eq!(backoff_delay(8), Duration::from_secs(60));
    assert_eq!(backoff_delay(100), Duration::from_secs(60));
    for a in 0..64 {
        let d = backoff_delay(a).as_secs();
        assert!((MIN_BACKOFF_SECS..=MAX_BACKOFF_SECS).contains(&d));
    }
}

#[test]
fn backoff_treats_attempt_zero_as_first_and_survives_huge_attempts() {
    assert_eq!(backoff_secs(0), 1);
    assert_eq!(backoff_secs(u32::MAX), 60);
}

#[test]
fn continuous_drops_take_ten_subscriptions_with_the_schedule() {
    let mut policy = ReconnectPolicy::new();
    let mut delays = Vec::new();
    loop {
        match policy.on_session_end(false) {
            ReconnectStep::Retry { delay_secs } => delays.push(delay_secs),
            ReconnectStep::GiveUp => break,
        }
    }
    assert_eq!(delays, vec![1, 2, 4, 8, 16, 32, 60, 60, 60]);
    assert_eq!(delays.len() as u32 + 1, MAX_RECONNECT_ATTEMPTS);
}

#[test]
fn stable_session_resets_the_reconnect_schedule() {
    let mut policy = ReconnectPolicy::new();
    assert_eq!(policy.on_session_end(false), ReconnectStep::Retry { delay_secs: 1 });
    assert_eq!(policy.on_session_end(false), ReconnectStep::Retry { delay_secs: 2 });
    assert_eq!(policy.on_session_end(false), ReconnectStep::Retry { delay_secs: 4 });
    assert_eq!(policy.on_session_end(true), ReconnectStep::Retry { delay_secs: 1 });
    assert_eq!(policy.on_session_end(false), ReconnectStep::Retry { delay_secs: 2 });
}

#[test]
fn exhausted_error_names_the_attempt_cap() {
    match exhausted_error() {
        DomainError::Transport(m) => {
            assert_eq!(m, "realtime subscription ended after 10 reconnect attempts")
        }
        other => panic!("expected Transport, got {other:?}"),
    }
}

#[test]
fn handshake_heartbeat_and_ack_frames_are_dropped() {
    assert!(frame_to_event("1::").is_none());
    assert!(frame_to_event("2::").is_none());
    assert!(frame_to_event("6:12::").is_none());
}

#[test]
fn call_info_frame_maps_to_call_info() {
    let frame = r#"5:1+::{"url":"SkypeSpacesWeb","foo":"bar"}"#;
    match frame_to_event(frame) {
        Some(RealtimeEvent::CallInfo(payload)) => {
            assert_eq!(payload, r#"{"url":"SkypeSpacesWeb","foo":"bar"}"#);
        }
        other => panic!("expected CallInfo, got {other:?}"),
    }
}

#[test]
fn generic_event_frame_without_message_shape_is_unknown() {
    let frame = r#"5:2+::{"hello":"world"}"#;
    match frame_to_event(frame) {
        Some(RealtimeEvent::Unknown(payload)) => {
            assert_eq!(payload, r#"{"hello":"world"}"#);
        }
        other => panic!("expected Unknown, got {other:?}"),
    }
}

#[test]
fn message_shaped_event_frame_maps_to_message_received() {
    let frame = r#"5:3+::{"resource":{"to":"19:abc@thread.v2","content":"hi there","imdisplayname":"Alice"}}"#;
    match frame_to_event(frame) {
        Some(RealtimeEvent::MessageReceived { chat_id, message }) => {
            assert_eq!(chat_id.as_str(), "19:abc@thread.v2");
            assert_eq!(message.content, "hi there");
            assert_eq!(message.sender, "Alice");
            assert!(message.timestamp.is_none());
        }
        other => panic!("expected MessageReceived, got {other:?}"),
    }
}

#[test]
fn event_frame_with_non_json_payload_is_unknown_raw() {
    let frame = "5:4+::not-json";
    match frame_to_event(frame) {
        Some(RealtimeEvent::Unknown(raw)) => assert_eq!(raw, frame),
        other => panic!("expected Unknown raw frame, got {other:?}"),
    }
}

#[test]
fn trouter_data_frame_is_surfaced_raw_as_unknown() {
    let frame = r#"3:::{"id":7}"#;
    match frame_to_event(frame) {
        Some(RealtimeEvent::Unknown(raw)) => assert_eq!(raw, frame),
        other => panic!("expected Unknown raw frame, got {other:?}"),
    }
}

#[test]
fn message_payload_with_empty_chat_id_falls_back_to_unknown() {
    let frame = r#"5:5+::{"resource":{"to":"","content":"hi"}}"#;
    match frame_to_event(frame) {
        Some(RealtimeEvent::Unknown(_)) => {}
        other => panic!("expected Unknown for empty chat id, got {other:?}"),
    }
}

#[test]
fn map_err_preserves_message_as_transport() {
    let err = InfraError::msg("negotiation timed out");
    match map_err(err) {
        DomainError::Transport(msg) => assert!(msg.contains("negotiation timed out")),
        other => panic!("expected Transport, got {other:?}"),
    }
}

#[test]
fn payload_shapes_nested_body_resource_and_fallback_fields() {
    let nested = r#"{"body":{"resource":{"conversationId":"19:x","body":"yo","from":"8:bob"}}}"#;
    match event_from_payload(nested) {
        RealtimeEvent::MessageReceived { chat_id, message } => {
            assert_eq!(chat_id.as_str(), "19:x");
            assert_eq!(message.content, "yo");
            assert_eq!(message.sender, "8:bob");
        }
        other => panic!("expected MessageReceived, got {other:?}"),
    }
    let top = r#"{"conversationLink":"https://x/19:y","content":"hey"}"#;
    match event_from_payload(top) {
        RealtimeEvent::MessageReceived { chat_id, message } => {
            assert_eq!(chat_id.as_str(), "https://x/19:y");
            assert_eq!(message.sender, "");
        }
        other => panic!("expected MessageReceived, got {other:?}"),
    }
    let non_string = r#"{"resource":{"to":7,"conversationId":"19:z","content":"c"}}"#;
    match event_from_payload(non_string) {
        RealtimeEvent::MessageReceived { chat_id, .. } => assert_eq!(chat_id.as_str(), "19:z"),
        other => panic!("expected MessageReceived, got {other:?}"),
    }
    let no_content = r#"{"resource":{"to":"19:q"}}"#;
    assert!(matches!(event_from_payload(no_content), RealtimeEvent::Unknown(p) if p == no_content));
}

#[test]
fn event_frame_without_separator_is_unknown_raw() {
    let frame = "5:7+:{\"a\":1}";
    match frame_to_event(frame) {
        Some(RealtimeEvent::Unknown(raw)) => assert_eq!(raw, frame),
        other => panic!("expected Unknown, got {other:?}"),
    }
}

#[test]
fn listener_prints_a_line_per_frame() {
    assert_eq!(frame_line("2::"), None);
    assert_eq!(frame_line(r#"5:1+::{"a":1}"#).as_deref(), Some(r#"[MSG] Event: {"a":1}"#));
    assert_eq!(
        frame_line(r#"5:1+::{"url":"SkypeSpacesWeb"}"#).as_deref(),
        Some(r#"[CALL-INFO] Event: {"url":"SkypeSpacesWeb"}"#)
    );
    assert_eq!(frame_line("5:1+::oops").as_deref(), Some("Frame: 5:1+::oops"));
    assert_eq!(frame_line(r#"6:1+:::{"ok":true}"#).as_deref(), Some(r#"Ack: {"ok":true}"#));
    assert_eq!(frame_line("6:12::").as_deref(), Some("Ack frame: 6:12::"));
    assert_eq!(frame_line("1::").as_deref(), Some("Frame: 1::"));
}

#[test]
fn listener_backoff_doubles_to_64_and_resets_after_stable_sessions() {
    let mut b = ListenerBackoff::new();
    let mut waits = Vec::new();
    for _ in 0..9 {
        waits.push(b.on_session_end(SessionEnd::Drop).unwrap());
    }
    assert_eq!(waits, vec![1, 2, 4, 8, 16, 32, 64, 64, 64]);
    assert_eq!(b.on_session_end(SessionEnd::StableDrop), Some(1));
    assert_eq!(b.on_session_end(SessionEnd::Drop), Some(1));
    assert_eq!(b.on_session_end(SessionEnd::Drop), Some(2));
    assert_eq!(b.on_session_end(SessionEnd::Shutdown), None);
}

#[test]
fn sessions_are_stable_after_a_minute() {
    assert_eq!(session_end(true, 5), SessionEnd::Shutdown);
    assert_eq!(session_end(true, 500), SessionEnd::Shutdown);
    assert_eq!(session_end(false, 59), SessionEnd::Drop);
    assert_eq!(session_end(false, 60), SessionEnd::StableDrop);
    assert_eq!(RE_REGISTER_SECS, 86370);
}

#[test]
fn session_token_requires_a_live_skype_token() {
    let now = 1_000_000;
    assert!(matches!(
        session_token(&None, now),
        Err(DomainError::Unauthenticated(m)) if m == "no skype token found. Run `teams-cli login` first."
    ));
    let expired = Some(StoredToken { token: "s".into(), expires_at: Some(10) });
    assert!(matches!(
        session_token(&expired, now),
        Err(DomainError::TokenExpired(m)) if m == "skype token expired. Run `teams-cli login` to refresh."
    ));
    let live = Some(StoredToken { token: "skype".into(), expires_at: None });
    assert_eq!(session_token(&live, now).unwrap(), "skype");
}

#[test]
fn realtime_adapter_is_constructible() {
    let _adapter = TungsteniteRealtime::new();
}

#[test]
fn session_waits_for_the_handshake_then_registers() {
    let (p, a) = session_step(SessionPhase::AwaitHandshake, SessionEvent::HeartbeatDue);
    assert_eq!(p, SessionPhase::AwaitHandshake);
    assert!(matches!(a, SessionAction::Nothing));
    let (p, a) = session_step(SessionPhase::AwaitHandshake, SessionEvent::Frame("1::".into()));
    assert_eq!(p, SessionPhase::Listening);
    assert!(matches!(a, SessionAction::Register));
    let (p, a) = session_step(SessionPhase::AwaitHandshake, SessionEvent::Closed);
    assert_eq!(p, SessionPhase::Ended);
    assert!(matches!(a, SessionAction::End { shutdown: false, ref reason } if reason == "Connection closed before handshake"));
    let (_, a) = session_step(SessionPhase::AwaitHandshake, SessionEvent::ReceiveFailed("reset".into()));
    assert!(matches!(a, SessionAction::End { shutdown: false, ref reason } if reason == "reset"));
}

#[test]
fn listening_session_prints_beats_and_ends() {
    let (p, a) = session_step(SessionPhase::Listening, SessionEvent::Frame("5:1+::oops".into()));
    assert_eq!(p, SessionPhase::Listening);
    assert!(matches!(a, SessionAction::Print(ref l) if l == "Frame: 5:1+::oops"));
    let (_, a) = session_step(SessionPhase::Listening, SessionEvent::Frame("2::".into()));
    assert!(matches!(a, SessionAction::Nothing));
    let (_, a) = session_step(SessionPhase::Listening, SessionEvent::HeartbeatDue);
    assert!(matches!(a, SessionAction::SendHeartbeat));
    let (_, a) = session_step(SessionPhase::Listening, SessionEvent::ReRegisterDue);
    assert!(matches!(a, SessionAction::ReRegister));
    let ends = [
        (SessionEvent::Closed, false, "WebSocket closed by server"),
        (SessionEvent::ReceiveFailed("eof".into()), false, "WebSocket recv error: eof"),
        (SessionEvent::HeartbeatFailed("pipe".into()), false, "Heartbeat send failed: pipe"),
        (SessionEvent::MaxAgeReached, false, "Session max age reached"),
        (SessionEvent::Interrupted, true, "Shutting down..."),
    ];
    for (event, want_shutdown, want_reason) in ends {
        let (p, a) = session_step(SessionPhase::Listening, event);
        assert_eq!(p, SessionPhase::Ended);
        match a {
            SessionAction::End { shutdown, reason } => {
                assert_eq!(shutdown, want_shutdown);
                assert_eq!(reason, want_reason);
            }
            other => panic!("expected End, got {other:?}"),
        }
    }
    let (p, a) = session_step(SessionPhase::Ended, SessionEvent::Frame("5:1+::x".into()));
    assert_eq!(p, SessionPhase::Ended);
    assert!(matches!(a, SessionAction::Nothing));
}

#[test]
fn documents_map_to_events() {
    let doc = Json::Object(vec![(
        "resource".into(),
        Json::Object(vec![
            ("to".into(), Json::Str("19:d".into())),
            ("content".into(), Json::Str("hello".into())),
            ("imdisplayname".into(), Json::Str("Dee".into())),
        ]),
    )]);
    match event_from_document(&doc, "raw") {
        RealtimeEvent::MessageReceived { chat_id, message } => {
            assert_eq!(chat_id.as_str(), "19:d");
            assert_eq!(message.content, "hello");
            assert_eq!(message.sender, "Dee");
        }
        other => panic!("expected MessageReceived, got {other:?}"),
    }
    let blank = Json::Object(vec![
        ("to".into(), Json::Str("  ".into())),
        ("content".into(), Json::Str("x".into())),
    ]);
    assert!(matches!(event_from_document(&blank, "raw"), RealtimeEvent::Unknown(p) if p == "raw"));
    assert!(matches!(event_from_document(&Json::Null, "n"), RealtimeEvent::Unknown(p) if p == "n"));
}

#[test]
fn listener_token_reports_with_the_listener_wording() {
    let now = 1_000_000;
    assert_eq!(listener_token(&None, now).unwrap_err(), "No skype token found. Run `teams-cli login` first.");
    let expired = Some(StoredToken { token: "s".into(), expires_at: Some(now + 299) });
    assert_eq!(listener_token(&expired, now).unwrap_err(), "Skype token expired. Run `teams-cli login` to refresh.");
    let live = Some(StoredToken { token: "skype".into(), expires_at: Some(now + 300) });
    assert_eq!(listener_token(&live, now).unwrap(), "skype");
}
