use teams_cli::error::DomainError;
use teams_cli::models::{Chat, ChatId, Message, MessagePreview, Presence, RealtimeEvent, SentMessage, Team, User};
use teams_cli::tui::{
    initial_commands, App, BackendCommand, EnterEffect, Intent, Key, KeyCode, Pane, SearchTarget,
    SidebarItem, TuiPresenter, TuiUpdate, UpdateEffect, dispatch, forward_error, ServiceCall,
};

fn press(code: KeyCode) -> Key {
    Key { code, press: true, ctrl: false, shift: false, other_modifier: false }
}

fn ctrl(code: KeyCode) -> Key {
    Key { code, press: true, ctrl: true, shift: false, other_modifier: false }
}

#[test]
fn pane_names_and_cycle() {
    assert_eq!(Pane::Sidebar.as_str(), "sidebar");
    assert_eq!(Pane::Messages.as_str(), "messages");
    assert_eq!(Pane::Compose.as_str(), "compose");
    assert_eq!(Pane::default(), Pane::Sidebar);
    let mut app = App::new();
    for p in [Pane::Sidebar, Pane::Messages, Pane::Compose] {
        app.active_pane = p;
        app.next_pane();
        app.prev_pane();
        assert_eq!(app.active_pane, p);
    }
    app.active_pane = Pane::Compose;
    app.next_pane();
    assert_eq!(app.active_pane, Pane::Sidebar);
}

#[test]
fn new_app_starts_loading() {
    let app = App::new();
    assert_eq!(app.user_name, "Loading...");
    assert_eq!(app.connection_state, "Connecting...");
    assert_eq!(app.active_pane, Pane::Sidebar);
    assert!(!app.should_exit && !app.is_online && !app.show_help);
    assert!(app.current_chat_id.is_none() && app.status_message.is_none());
}

#[test]
fn navigation_keys() {
    let mut app = App::new();
    assert_eq!(app.handle_event(press(KeyCode::Down)), Intent::SidebarDown);
    assert_eq!(app.handle_event(press(KeyCode::Char('k'))), Intent::SidebarUp);
    assert_eq!(app.handle_event(press(KeyCode::Enter)), Intent::SidebarEnter);
    assert_eq!(app.handle_event(press(KeyCode::Tab)), Intent::Nothing);
    assert_eq!(app.active_pane, Pane::Messages);
    assert_eq!(app.handle_event(press(KeyCode::Char('j'))), Intent::MessagesNext);
    assert_eq!(app.handle_event(press(KeyCode::Enter)), Intent::MessagesToggleThread);
    app.handle_event(press(KeyCode::Left));
    assert_eq!(app.active_pane, Pane::Sidebar);
    app.handle_event(press(KeyCode::Char('3')));
    assert_eq!(app.active_pane, Pane::Compose);
    app.handle_event(press(KeyCode::Esc));
    assert_eq!(app.active_pane, Pane::Messages);
    app.handle_event(press(KeyCode::Char('q')));
    assert!(app.should_exit);
}

#[test]
fn help_search_debug_and_status() {
    let mut app = App::new();
    app.status_message = Some("old".into());
    app.handle_event(press(KeyCode::Char('?')));
    assert!(app.show_help);
    assert!(app.status_message.is_none());
    app.status_message = Some("kept".into());
    assert_eq!(app.handle_event(press(KeyCode::Char('q'))), Intent::Nothing);
    assert!(!app.show_help && !app.should_exit);
    assert_eq!(app.status_message.as_deref(), Some("kept"));
    let release = Key { code: KeyCode::Char('q'), press: false, ctrl: false, shift: false, other_modifier: false };
    assert_eq!(app.handle_event(release), Intent::Nothing);
    assert!(!app.should_exit);
    assert_eq!(app.handle_event(ctrl(KeyCode::Char('k'))), Intent::SearchOpen);
    assert!(app.search_active);
    assert_eq!(app.handle_event(press(KeyCode::Char('q'))), Intent::SearchChanged);
    assert_eq!(app.search_query, vec!['q']);
    assert_eq!(app.handle_event(ctrl(KeyCode::Char('q'))), Intent::Nothing);
    assert_eq!(app.search_query, vec!['q']);
    assert_eq!(app.handle_event(press(KeyCode::Esc)), Intent::SearchClose);
    assert!(!app.search_active);
    assert_eq!(app.handle_event(press(KeyCode::PageUp)), Intent::Nothing);
    assert_eq!(app.debug_scroll, 0);
    assert_eq!(app.handle_event(ctrl(KeyCode::Char('d'))), Intent::Nothing);
    assert!(app.debug_visible);
    app.handle_event(press(KeyCode::PageUp));
    app.handle_event(press(KeyCode::PageUp));
    assert_eq!(app.debug_scroll, 20);
    app.handle_event(press(KeyCode::PageDown));
    assert_eq!(app.debug_scroll, 10);
    app.handle_event(press(KeyCode::PageDown));
    app.handle_event(press(KeyCode::PageDown));
    assert_eq!(app.debug_scroll, 0);
    app.debug_scroll = usize::MAX - 3;
    app.handle_event(press(KeyCode::PageUp));
    assert_eq!(app.debug_scroll, usize::MAX);
    app.handle_event(ctrl(KeyCode::Char('d')));
    assert!(!app.debug_visible);
    app.debug_scroll = 10;
    app.handle_event(press(KeyCode::PageDown));
    assert_eq!(app.debug_scroll, 10);
}

#[test]
fn editing_the_search_query() {
    let mut app = App::new();
    app.handle_event(ctrl(KeyCode::Char('k')));
    for c in ['a', 'b', 'c'] {
        assert_eq!(app.handle_event(press(KeyCode::Char(c))), Intent::SearchChanged);
    }
    assert_eq!(app.search_cursor, 3);
    app.handle_event(press(KeyCode::Left));
    app.handle_event(press(KeyCode::Left));
    assert_eq!(app.search_cursor, 1);
    let shifted = Key { code: KeyCode::Char('X'), press: true, ctrl: false, shift: true, other_modifier: false };
    app.handle_event(shifted);
    assert_eq!(app.search_query, vec!['a', 'X', 'b', 'c']);
    assert_eq!(app.search_cursor, 2);
    assert_eq!(app.handle_event(press(KeyCode::Backspace)), Intent::SearchChanged);
    assert_eq!(app.search_query, vec!['a', 'b', 'c']);
    assert_eq!(app.search_cursor, 1);
    assert_eq!(app.handle_event(press(KeyCode::Delete)), Intent::SearchChanged);
    assert_eq!(app.search_query, vec!['a', 'c']);
    assert_eq!(app.search_cursor, 1);
    app.handle_event(press(KeyCode::Home));
    assert_eq!(app.search_cursor, 0);
    app.handle_event(press(KeyCode::Backspace));
    assert_eq!(app.search_query, vec!['a', 'c']);
    app.handle_event(press(KeyCode::Left));
    assert_eq!(app.search_cursor, 0);
    app.handle_event(press(KeyCode::End));
    assert_eq!(app.search_cursor, 2);
    app.handle_event(press(KeyCode::Delete));
    app.handle_event(press(KeyCode::Right));
    assert_eq!(app.search_query, vec!['a', 'c']);
    assert_eq!(app.search_cursor, 2);
    assert_eq!(app.handle_event(press(KeyCode::Up)), Intent::SearchPrevious);
    assert_eq!(app.handle_event(press(KeyCode::Down)), Intent::SearchNext);
    assert_eq!(app.handle_event(press(KeyCode::Enter)), Intent::SearchSelect);
    app.handle_event(press(KeyCode::Esc));
    app.handle_event(ctrl(KeyCode::Char('k')));
    assert!(app.search_query.is_empty());
    assert_eq!(app.search_cursor, 0);
}

#[test]
fn compose_keys() {
    let mut app = App::new();
    app.active_pane = Pane::Compose;
    assert_eq!(app.handle_event(press(KeyCode::Char('x'))), Intent::ComposeInsert('x'));
    let shifted = Key { code: KeyCode::Char('X'), press: true, ctrl: false, shift: true, other_modifier: false };
    assert_eq!(app.handle_event(shifted), Intent::ComposeInsert('X'));
    assert_eq!(app.handle_event(ctrl(KeyCode::Enter)), Intent::ComposeNewline);
    assert_eq!(app.handle_event(press(KeyCode::Enter)), Intent::ComposeSend);
    assert_eq!(app.handle_event(ctrl(KeyCode::Char('u'))), Intent::ComposeClear);
    assert_eq!(app.handle_event(press(KeyCode::Left)), Intent::ComposeLeft);
    assert_eq!(app.handle_event(press(KeyCode::Char('q'))), Intent::ComposeInsert('q'));
    assert!(!app.should_exit);
    app.handle_event(press(KeyCode::BackTab));
    assert_eq!(app.active_pane, Pane::Messages);
}

#[test]
fn sending_needs_an_open_chat() {
    let mut app = App::new();
    assert!(app.send_composed(None).is_none());
    assert!(app.send_composed(Some("hi".into())).is_none());
    assert_eq!(app.status_message.as_deref(), Some("No chat selected. Select a channel or chat first."));
    assert!(app.status_is_error);
    app.current_chat_id = Some("19:a".into());
    match app.send_composed(Some("hi".into())) {
        Some(BackendCommand::SendMessage { chat_id, message }) => {
            assert_eq!(chat_id, "19:a");
            assert_eq!(message, "hi");
        }
        other => panic!("expected SendMessage, got {other:?}"),
    }
}

#[test]
fn entering_a_sidebar_item() {
    let mut app = App::new();
    app.team_channels = vec![2, 1];
    app.team_expanded = vec![false, false];
    assert!(matches!(app.handle_sidebar_enter(Some(SidebarItem::Team(1)), None, None), EnterEffect::ToggleTeam));
    assert_eq!(app.team_expanded, vec![false, true]);
    assert!(matches!(app.handle_sidebar_enter(Some(SidebarItem::Team(1)), None, None), EnterEffect::ToggleTeam));
    assert_eq!(app.team_expanded, vec![false, false]);
    assert!(matches!(app.handle_sidebar_enter(Some(SidebarItem::Team(7)), None, None), EnterEffect::ToggleTeam));
    assert_eq!(app.team_expanded, vec![false, false]);
    assert!(matches!(app.handle_sidebar_enter(Some(SidebarItem::TeamsHeader), None, None), EnterEffect::Nothing));
    assert!(matches!(app.handle_sidebar_enter(None, None, None), EnterEffect::Nothing));
    app.message_count = 4;
    match app.handle_sidebar_enter(Some(SidebarItem::Chat(2)), Some("19:c".into()), Some("Carol".into())) {
        EnterEffect::Open(BackendCommand::LoadMessages { chat_id, limit }) => {
            assert_eq!(chat_id, "19:c");
            assert_eq!(limit, 50);
        }
        other => panic!("expected Open, got {other:?}"),
    }
    assert_eq!(app.current_chat_id.as_deref(), Some("19:c"));
    assert_eq!(app.channel_name, "Carol");
    assert_eq!(app.channel_header, "Carol");
    assert!(app.messages_loading);
    assert_eq!(app.message_count, 0);
}

#[test]
fn sidebar_list() {
    let mut app = App::new();
    assert_eq!(app.flat_items(), vec![SidebarItem::TeamsHeader, SidebarItem::ChatsHeader]);
    app.team_channels = vec![2, 1];
    app.team_expanded = vec![true, false];
    app.chat_count = 2;
    assert_eq!(
        app.flat_items(),
        vec![
            SidebarItem::TeamsHeader,
            SidebarItem::Team(0),
            SidebarItem::Channel(0, 0),
            SidebarItem::Channel(0, 1),
            SidebarItem::Team(1),
            SidebarItem::ChatsHeader,
            SidebarItem::Chat(0),
            SidebarItem::Chat(1),
        ]
    );
}

#[test]
fn applying_a_search_result() {
    let mut app = App::new();
    app.team_channels = vec![2, 1];
    app.team_expanded = vec![false, false];
    app.chat_count = 1;
    app.search_active = true;
    app.active_pane = Pane::Compose;
    app.apply_search_selection(Some(SearchTarget::Channel(1, 0)));
    assert_eq!(app.team_expanded, vec![false, true]);
    assert_eq!(app.sidebar_selected, 3);
    assert_eq!(app.active_pane, Pane::Sidebar);
    assert!(!app.search_active);
    app.apply_search_selection(Some(SearchTarget::Channel(0, 1)));
    assert_eq!(app.team_expanded, vec![true, true]);
    assert_eq!(app.sidebar_selected, 3);
    app.apply_search_selection(Some(SearchTarget::Chat(0)));
    assert_eq!(app.sidebar_selected, 7);
    app.apply_search_selection(Some(SearchTarget::Chat(9)));
    assert_eq!(app.sidebar_selected, 7);
    app.message_count = 3;
    app.apply_search_selection(Some(SearchTarget::Message(4)));
    assert_eq!(app.message_selected, 0);
    assert_eq!(app.active_pane, Pane::Messages);
    app.apply_search_selection(Some(SearchTarget::Message(2)));
    assert_eq!(app.message_selected, 2);
    app.search_active = true;
    app.apply_search_selection(None);
    assert!(!app.search_active);
    assert_eq!(app.message_selected, 2);
}

#[test]
fn folding_updates() {
    let mut app = App::new();
    app.search_active = true;
    match app.handle_tui_update(TuiUpdate::Teams(vec![Team { id: "t".into(), display_name: "T".into(), description: None }])) {
        UpdateEffect::StoreTeams { teams, clamp_selection } => {
            assert_eq!(teams.len(), 1);
            assert!(clamp_selection);
        }
        other => panic!("expected StoreTeams, got {other:?}"),
    }
    assert!(!app.sidebar_loading && !app.search_active);
    assert_eq!(app.team_channels, vec![0]);
    assert_eq!(app.team_expanded, vec![false]);
    app.handle_tui_update(TuiUpdate::Chats(vec![]));
    assert_eq!(app.chat_count, 0);
    app.handle_tui_update(TuiUpdate::User(User { id: "u".into(), display_name: "Ann".into(), email: None }));
    assert_eq!(app.user_name, "Ann");
    app.handle_tui_update(TuiUpdate::Presence(Presence::Busy));
    assert!(app.is_online);
    assert_eq!(app.connection_state, "Connected");
    app.handle_tui_update(TuiUpdate::Presence(Presence::Offline));
    assert!(!app.is_online);
    assert_eq!(app.connection_state, "Status: Offline");
    let sent = SentMessage { id: "m".into(), chat_id: ChatId::new("19:a").unwrap(), timestamp: None };
    assert!(matches!(app.handle_tui_update(TuiUpdate::MessageSent(sent)), UpdateEffect::Nothing));
    assert_eq!(app.status_message.as_deref(), Some("Message sent"));
    assert!(!app.status_is_error);
    app.current_chat_id = Some("19:a".into());
    let sent = SentMessage { id: "m".into(), chat_id: ChatId::new("19:a").unwrap(), timestamp: None };
    assert!(matches!(
        app.handle_tui_update(TuiUpdate::MessageSent(sent)),
        UpdateEffect::Send(BackendCommand::LoadMessages { chat_id, limit: 50 }) if chat_id == "19:a"
    ));
    app.messages_loading = true;
    app.handle_tui_update(TuiUpdate::Error("boom".into()));
    assert_eq!(app.status_message.as_deref(), Some("boom"));
    assert!(app.status_is_error && !app.sidebar_loading && !app.messages_loading);
    app.channel_header = "Hdr".into();
    match app.handle_tui_update(TuiUpdate::Messages(vec![])) {
        UpdateEffect::StoreMessages { header, messages } => {
            assert_eq!(header, "Hdr");
            assert!(messages.is_empty());
        }
        other => panic!("expected StoreMessages, got {other:?}"),
    }
    assert_eq!(app.message_count, 0);
    let before_user = app.user_name.clone();
    let before_state = app.connection_state.clone();
    let before_error = app.status_is_error;
    let event = RealtimeEvent::Unknown("{}".into());
    assert!(matches!(app.handle_tui_update(TuiUpdate::Event(event)), UpdateEffect::Nothing));
    assert_eq!(app.user_name, before_user);
    assert_eq!(app.connection_state, before_state);
    assert_eq!(app.status_is_error, before_error);
}

#[test]
fn start_up_loads() {
    let cmds = initial_commands();
    assert!(matches!(cmds[0], BackendCommand::LoadTeams));
    assert!(matches!(cmds[1], BackendCommand::LoadChats { limit: 50 }));
    assert!(matches!(cmds[2], BackendCommand::LoadUserInfo));
    assert!(matches!(cmds[3], BackendCommand::LoadPresence));
    assert_eq!(cmds.len(), 4);
}

fn sample_chat() -> Chat {
    Chat {
        id: ChatId::new("19:abc@thread.v2").unwrap(),
        name: "Team Chat".to_string(),
        is_group: true,
        last_message: Some(MessagePreview {
            sender: "Alice".to_string(),
            timestamp: None,
            text: "hello".to_string(),
        }),
    }
}

#[test]
fn show_chats_sends_chats_update() {
    let presenter = TuiPresenter::new();
    match presenter.show_chats(vec![sample_chat()]) {
        TuiUpdate::Chats(chats) => {
            assert_eq!(chats.len(), 1);
            assert_eq!(chats[0].name, "Team Chat");
            assert_eq!(chats[0].id.as_str(), "19:abc@thread.v2");
        }
        other => panic!("expected Chats update, got {other:?}"),
    }
}

#[test]
fn show_messages_sends_messages_update() {
    let presenter = TuiPresenter::new();
    let update = presenter.show_messages(vec![Message {
        sender: "Bob".to_string(),
        timestamp: None,
        content: "hi".to_string(),
    }]);
    match update {
        TuiUpdate::Messages(messages) => {
            assert_eq!(messages.len(), 1);
            assert_eq!(messages[0].sender, "Bob");
            assert_eq!(messages[0].content, "hi");
        }
        other => panic!("expected Messages update, got {other:?}"),
    }
}

#[test]
fn message_sent_sends_message_sent_update() {
    let presenter = TuiPresenter::new();
    let update = presenter.message_sent(SentMessage {
        id: "1".to_string(),
        chat_id: ChatId::new("19:abc@thread.v2").unwrap(),
        timestamp: None,
    });
    match update {
        TuiUpdate::MessageSent(sent) => {
            assert_eq!(sent.id, "1");
            assert_eq!(sent.chat_id.as_str(), "19:abc@thread.v2");
        }
        other => panic!("expected MessageSent update, got {other:?}"),
    }
}

#[test]
fn show_presence_sends_presence_update() {
    let presenter = TuiPresenter::new();
    match presenter.show_presence(Presence::Busy) {
        TuiUpdate::Presence(presence) => assert_eq!(presence, Presence::Busy),
        other => panic!("expected Presence update, got {other:?}"),
    }
}

#[test]
fn show_user_sends_user_update() {
    let presenter = TuiPresenter::new();
    let update = presenter.show_user(User {
        id: "id".to_string(),
        display_name: "Name".to_string(),
        email: Some("name@example.com".to_string()),
    });
    match update {
        TuiUpdate::User(user) => {
            assert_eq!(user.display_name, "Name");
            assert_eq!(user.email.as_deref(), Some("name@example.com"));
        }
        other => panic!("expected User update, got {other:?}"),
    }
}

#[test]
fn show_teams_sends_teams_update() {
    let presenter = TuiPresenter::new();
    let update = presenter.show_teams(vec![Team {
        id: "t1".to_string(),
        display_name: "Engineering".to_string(),
        description: None,
    }]);
    match update {
        TuiUpdate::Teams(teams) => {
            assert_eq!(teams.len(), 1);
            assert_eq!(teams[0].display_name, "Engineering");
        }
        other => panic!("expected Teams update, got {other:?}"),
    }
}

#[test]
fn notify_event_sends_event_update() {
    let presenter = TuiPresenter::new();
    match presenter.notify_event(RealtimeEvent::Unknown("ping".to_string())) {
        TuiUpdate::Event(RealtimeEvent::Unknown(raw)) => assert_eq!(raw, "ping"),
        other => panic!("expected Event(Unknown) update, got {other:?}"),
    }
}

#[test]
fn show_error_sends_error_update() {
    let presenter = TuiPresenter::new();
    match presenter.show_error(&DomainError::Invalid("bad".to_string())) {
        TuiUpdate::Error(msg) => assert_eq!(msg, "invalid input: bad"),
        other => panic!("expected Error update, got {other:?}"),
    }
}

#[test]
fn backend_commands_become_service_calls() {
    assert!(matches!(dispatch(BackendCommand::LoadTeams, true), Some(ServiceCall::ListTeams)));
    assert!(matches!(dispatch(BackendCommand::LoadChats { limit: 50 }, true), Some(ServiceCall::ListChats { limit: 50 })));
    match dispatch(BackendCommand::LoadMessages { chat_id: "19:a".into(), limit: 50 }, true) {
        Some(ServiceCall::ReadMessages { chat_id, limit }) => {
            assert_eq!(chat_id, "19:a");
            assert_eq!(limit, 50);
        }
        other => panic!("expected ReadMessages, got {other:?}"),
    }
    match dispatch(BackendCommand::SendMessage { chat_id: "19:a".into(), message: "hi".into() }, true) {
        Some(ServiceCall::SendMessage { chat_id, message }) => {
            assert_eq!(chat_id, "19:a");
            assert_eq!(message, "hi");
        }
        other => panic!("expected SendMessage, got {other:?}"),
    }
    assert!(matches!(dispatch(BackendCommand::LoadUserInfo, true), Some(ServiceCall::WhoAmI)));
    assert!(matches!(dispatch(BackendCommand::LoadPresence, true), Some(ServiceCall::GetPresence)));
    assert!(dispatch(BackendCommand::LoadTeams, false).is_none());
    assert!(dispatch(BackendCommand::LoadPresence, false).is_none());
}

#[test]
fn only_failures_are_forwarded() {
    assert!(forward_error(Ok(())).is_none());
    match forward_error(Err(DomainError::Invalid("bad".into()))) {
        Some(TuiUpdate::Error(msg)) => assert_eq!(msg, "invalid input: bad"),
        other => panic!("expected Error, got {other:?}"),
    }
}

#[test]
fn each_method_sends_exactly_one_update() {
    let presenter = TuiPresenter::new();
    let (tx, rx) = std::sync::mpsc::channel();
    tx.send(presenter.show_presence(Presence::Available)).unwrap();
    assert!(matches!(rx.try_recv(), Ok(TuiUpdate::Presence(_))));
    assert_eq!(rx.try_recv().unwrap_err(), std::sync::mpsc::TryRecvError::Empty);
}
