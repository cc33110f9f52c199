use teams_cli::console::ConsolePresenter;
use teams_cli::error::DomainError;
use teams_cli::models::{Chat, ChatId, Message, MessagePreview, Presence, RealtimeEvent, SentMessage, Team, User};
use teams_cli::time::parse_timestamp;

#[test]
fn presenter_is_constructible_and_renders_without_panic() {
    let p = ConsolePresenter::new();
    p.show_chats(&[]);
    p.show_chats(&[Chat {
        id: ChatId::new("19:abc@thread.v2").unwrap(),
        name: "Team Chat".to_string(),
        is_group: true,
        last_message: Some(MessagePreview { sender: "Alice".to_string(), timestamp: None, text: "hello".to_string() }),
    }]);
    p.show_messages(&[]);
    p.show_messages(&[Message { sender: "Bob".to_string(), timestamp: None, content: "hi".to_string() }]);
}

#[test]
fn chat_list_lines() {
    let p = ConsolePresenter::new();
    let rule = "-".repeat(60);
    assert_eq!(p.show_chats(&[]), vec!["".to_string(), "Recent Chats:".to_string(), rule.clone(), "  (no chats found)".to_string()]);
    let chats = [
        Chat {
            id: ChatId::new("19:a").unwrap(),
            name: "Alpha".into(),
            is_group: true,
            last_message: Some(MessagePreview {
                sender: String::new(),
                timestamp: parse_timestamp("2024-01-02T03:04:05Z"),
                text: "  hey  ".into(),
            }),
        },
        Chat { id: ChatId::new("19:b").unwrap(), name: "Beta".into(), is_group: false, last_message: None },
        Chat {
            id: ChatId::new("19:c").unwrap(),
            name: "Gamma".into(),
            is_group: false,
            last_message: Some(MessagePreview { sender: "Zed".into(), timestamp: None, text: " ".into() }),
        },
    ];
    assert_eq!(
        p.show_chats(&chats),
        vec![
            "", "Recent Chats:", &rule, "Alpha", "  ID: 19:a", "  Last: 2024-01-02T03:04:05+00:00", "  [?]: hey", "",
            "Beta", "  ID: 19:b", "", "Gamma", "  ID: 19:c", "",
        ]
    );
}

#[test]
fn message_list_lines() {
    let p = ConsolePresenter::new();
    assert_eq!(p.show_messages(&[]), vec!["(no messages)"]);
    let ms = [
        Message { sender: "Bob".into(), timestamp: None, content: "hi".into() },
        Message { sender: "Ann".into(), timestamp: parse_timestamp("2024-01-02T03:04:05Z"), content: "yo".into() },
    ];
    assert_eq!(p.show_messages(&ms), vec!["[] Bob: hi", "[2024-01-02T03:04:05+00:00] Ann: yo"]);
}

#[test]
fn presence_user_and_sent_lines() {
    let p = ConsolePresenter::new();
    assert_eq!(
        p.show_presence(&Presence::DoNotDisturb),
        vec!["", "Presence Status:", "  Availability: DoNotDisturb", "  Activity: DoNotDisturb"]
    );
    assert_eq!(
        p.show_user(&User { id: "u1".into(), display_name: "Ann".into(), email: None }),
        vec!["", "Display Name: Ann", "Mail:         (none)", "ID:           u1"]
    );
    let sent = SentMessage { id: "m".into(), chat_id: ChatId::new("19:a").unwrap(), timestamp: None };
    assert_eq!(p.message_sent(&sent), vec!["Message sent."]);
}

#[test]
fn team_list_lines() {
    let p = ConsolePresenter::new();
    let rule = "-".repeat(60);
    assert_eq!(p.show_teams(&[]), vec!["".to_string(), "Teams and Channels:".to_string(), rule.clone(), "  (no teams found)".to_string()]);
    let teams = [
        Team { id: "t1".into(), display_name: "Eng".into(), description: Some("  builders ".into()) },
        Team { id: "t2".into(), display_name: "Ops".into(), description: Some("   ".into()) },
    ];
    assert_eq!(
        p.show_teams(&teams),
        vec!["", "Teams and Channels:", &rule, "Team: Eng (0 channels)", "  builders", "", "Team: Ops (0 channels)", ""]
    );
}

#[test]
fn event_and_error_lines() {
    let p = ConsolePresenter::new();
    let msg = RealtimeEvent::MessageReceived {
        chat_id: ChatId::new("19:a").unwrap(),
        message: Message { sender: "Ann".into(), timestamp: None, content: "hi".into() },
    };
    assert_eq!(p.notify_event(&msg), "[] Ann in 19:a: hi");
    let pres = RealtimeEvent::PresenceChanged { user_id: "u".into(), presence: Presence::Away };
    assert_eq!(p.notify_event(&pres), "Presence: u is now Away");
    assert_eq!(p.notify_event(&RealtimeEvent::CallInfo("c".into())), "Call: c");
    assert_eq!(p.notify_event(&RealtimeEvent::Unknown("raw".into())), "Event: raw");
    assert_eq!(
        p.show_error(&DomainError::Transport("Token expired and no refresh token. Run 'teams-cli login'.".into())),
        "Error: transport failure: Token expired and no refresh token. Run 'teams-cli login'."
    );
}
