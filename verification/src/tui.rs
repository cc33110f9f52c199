//! The state and decisions of the terminal user interface: panes, the
//! application state, what each key press does, how service updates are
//! folded into the state, and the commands sent to the backend.

use vstd::prelude::*;
use crate::error::{DomainError, DomainResult};
use crate::models::{Chat, Message, Presence, RealtimeEvent, SentMessage, Team, User};
use crate::presence::{label_spec, presence_label};
use crate::text::{chars_of, owned, push_str, string_from_chars};

verus! {

/// Active pane in the interface.
#[derive(Debug, Clone, Copy, PartialEq, Eq, Structural)]
pub enum Pane {
    Sidebar,
    Messages,
    Compose,
}

/// The pane after `p` in the focus cycle Sidebar, Messages, Compose.
pub open spec fn next_spec(p: Pane) -> Pane {
    match p {
        Pane::Sidebar => Pane::Messages,
        Pane::Messages => Pane::Compose,
        Pane::Compose => Pane::Sidebar,
    }
}

/// The pane before `p` in the focus cycle.
pub open spec fn prev_spec(p: Pane) -> Pane {
    match p {
        Pane::Sidebar => Pane::Compose,
        Pane::Messages => Pane::Sidebar,
        Pane::Compose => Pane::Messages,
    }
}

impl Pane {
    /// The name of the pane.
    pub fn as_str(&self) -> (r: &'static str)
        ensures
            r@ == (match *self {
                Pane::Sidebar => "sidebar"@,
                Pane::Messages => "messages"@,
                Pane::Compose => "compose"@,
            }),
    {
        match self {
            Pane::Sidebar => "sidebar",
            Pane::Messages => "messages",
            Pane::Compose => "compose",
        }
    }
}

impl Default for Pane {
    /// Focus starts on the sidebar.
    fn default() -> (r: Self)
        ensures
            r == Pane::Sidebar,
    {
        Pane::Sidebar
    }
}

/// Moving focus back undoes moving it forward, and the other way round;
/// three moves forward come back to the same pane.
pub proof fn lemma_pane_cycle(p: Pane)
    ensures
        prev_spec(next_spec(p)) == p,
        next_spec(prev_spec(p)) == p,
        next_spec(next_spec(next_spec(p))) == p,
{
}

/// A key code, as the terminal reports it.
#[derive(Debug, Clone, Copy, PartialEq, Eq, Structural)]
pub enum KeyCode {
    Char(char),
    Enter,
    Esc,
    Tab,
    BackTab,
    Backspace,
    Delete,
    Left,
    Right,
    Up,
    Down,
    Home,
    End,
    PageUp,
    PageDown,
    Other,
}

/// A key event: the code, the modifiers held, and whether it is a press
/// (rather than a release or repeat).
#[derive(Debug, Clone, Copy, PartialEq, Eq, Structural)]
pub struct Key {
    pub code: KeyCode,
    pub press: bool,
    pub ctrl: bool,
    pub shift: bool,
    /// A modifier other than Control and Shift is held.
    pub other_modifier: bool,
}

/// Text input accepts a key held with no modifier or with Shift only.
pub open spec fn plain(k: Key) -> bool {
    !k.ctrl && !k.other_modifier
}

/// What a key asks of a pane whose state the caller keeps.
#[derive(Debug, Clone, Copy, PartialEq, Eq, Structural)]
pub enum Intent {
    Nothing,
    SidebarUp,
    SidebarDown,
    SidebarEnter,
    MessagesPrevious,
    MessagesNext,
    MessagesToggleThread,
    ComposeNewline,
    ComposeSend,
    ComposeClear,
    ComposeBackspace,
    ComposeDelete,
    ComposeLeft,
    ComposeRight,
    ComposeHome,
    ComposeEnd,
    ComposeInsert(char),
    /// The search overlay opened with an empty query: its results start over.
    SearchOpen,
    /// The search overlay closed.
    SearchClose,
    SearchPrevious,
    SearchNext,
    SearchSelect,
    /// The search query changed: its results are to be recomputed.
    SearchChanged,
}

/// The part of the interface state that key presses change: the exit flag,
/// the help popup, the focused pane, the search overlay with its query and
/// cursor (a position between characters), and the debug log pane with its
/// scroll offset (lines back from the newest).
pub struct UiState {
    pub should_exit: bool,
    pub show_help: bool,
    pub active_pane: Pane,
    pub search_active: bool,
    pub query: Seq<char>,
    pub cursor: int,
    pub debug_visible: bool,
    pub debug_scroll: int,
}

/// The number of lines Page Up and Page Down scroll the debug log.
pub const DEBUG_SCROLL_STEP: usize = 10;

/// `c` typed at `cursor`: it goes in before the cursor, which moves past it.
pub open spec fn insert_at(q: Seq<char>, cursor: int, c: char) -> (Seq<char>, int) {
    (q.insert(cursor, c), cursor + 1)
}

/// Backspace removes the character before the cursor, if there is one.
pub open spec fn backspace_at(q: Seq<char>, cursor: int) -> (Seq<char>, int) {
    if cursor > 0 {
        (q.remove(cursor - 1), cursor - 1)
    } else {
        (q, cursor)
    }
}

/// Delete removes the character under the cursor, if there is one.
pub open spec fn delete_at(q: Seq<char>, cursor: int) -> (Seq<char>, int) {
    if cursor < q.len() {
        (q.remove(cursor), cursor)
    } else {
        (q, cursor)
    }
}

/// A key on the search overlay: Esc closes it; Up and Down move through the
/// results and Enter selects one; Backspace, Delete and a plain character
/// edit the query at the cursor; Left, Right, Home and End move the cursor
/// within the query.
pub open spec fn search_key(s: UiState, k: Key) -> (UiState, Intent) {
    match k.code {
        KeyCode::Esc => (UiState { search_active: false, ..s }, Intent::SearchClose),
        KeyCode::Up => (s, Intent::SearchPrevious),
        KeyCode::Down => (s, Intent::SearchNext),
        KeyCode::Enter => (s, Intent::SearchSelect),
        KeyCode::Backspace => {
            let (q, c) = backspace_at(s.query, s.cursor);
            (UiState { query: q, cursor: c, ..s }, Intent::SearchChanged)
        },
        KeyCode::Delete => {
            let (q, c) = delete_at(s.query, s.cursor);
            (UiState { query: q, cursor: c, ..s }, Intent::SearchChanged)
        },
        KeyCode::Left => (
            UiState { cursor: if s.cursor > 0 { s.cursor - 1 } else { 0 }, ..s },
            Intent::Nothing,
        ),
        KeyCode::Right => (
            UiState {
                cursor: if s.cursor < s.query.len() { s.cursor + 1 } else { s.cursor },
                ..s
            },
            Intent::Nothing,
        ),
        KeyCode::Home => (UiState { cursor: 0, ..s }, Intent::Nothing),
        KeyCode::End => (UiState { cursor: s.query.len() as int, ..s }, Intent::Nothing),
        KeyCode::Char(ch) => if plain(k) {
            let (q, c) = insert_at(s.query, s.cursor, ch);
            (UiState { query: q, cursor: c, ..s }, Intent::SearchChanged)
        } else {
            (s, Intent::Nothing)
        },
        _ => (s, Intent::Nothing),
    }
}

/// A key in the compose pane: Tab and Shift+Tab move focus, Esc goes to the
/// messages; Ctrl+Enter inserts a newline and Enter sends; Ctrl+U clears;
/// editing keys edit; a plain character is typed.
pub open spec fn compose_key(s: UiState, k: Key) -> (UiState, Intent) {
    match k.code {
        KeyCode::Tab => (UiState { active_pane: next_spec(s.active_pane), ..s }, Intent::Nothing),
        KeyCode::BackTab => (
            UiState { active_pane: prev_spec(s.active_pane), ..s },
            Intent::Nothing,
        ),
        KeyCode::Esc => (UiState { active_pane: Pane::Messages, ..s }, Intent::Nothing),
        KeyCode::Enter => if k.ctrl {
            (s, Intent::ComposeNewline)
        } else {
            (s, Intent::ComposeSend)
        },
        KeyCode::Char(c) => if c == 'u' && k.ctrl {
            (s, Intent::ComposeClear)
        } else if plain(k) {
            (s, Intent::ComposeInsert(c))
        } else {
            (s, Intent::Nothing)
        },
        KeyCode::Backspace => (s, Intent::ComposeBackspace),
        KeyCode::Delete => (s, Intent::ComposeDelete),
        KeyCode::Left => (s, Intent::ComposeLeft),
        KeyCode::Right => (s, Intent::ComposeRight),
        KeyCode::Home => (s, Intent::ComposeHome),
        KeyCode::End => (s, Intent::ComposeEnd),
        _ => (s, Intent::Nothing),
    }
}

/// A key outside the compose pane: `q` quits; Tab/Right and Shift+Tab/Left
/// move focus; `1`, `2`, `3` jump to a pane; Up/`k`, Down/`j` and Enter act
/// on the sidebar or the messages, whichever has focus; `?` toggles help.
pub open spec fn navigation_key(s: UiState, k: Key) -> (UiState, Intent) {
    let on_sidebar = s.active_pane == Pane::Sidebar;
    let on_messages = s.active_pane == Pane::Messages;
    match k.code {
        KeyCode::Char(c) => if c == 'q' {
            (UiState { should_exit: true, ..s }, Intent::Nothing)
        } else if c == '1' {
            (UiState { active_pane: Pane::Sidebar, ..s }, Intent::Nothing)
        } else if c == '2' {
            (UiState { active_pane: Pane::Messages, ..s }, Intent::Nothing)
        } else if c == '3' {
            (UiState { active_pane: Pane::Compose, ..s }, Intent::Nothing)
        } else if c == 'k' && on_sidebar {
            (s, Intent::SidebarUp)
        } else if c == 'j' && on_sidebar {
            (s, Intent::SidebarDown)
        } else if c == 'k' && on_messages {
            (s, Intent::MessagesPrevious)
        } else if c == 'j' && on_messages {
            (s, Intent::MessagesNext)
        } else if c == '?' {
            (UiState { show_help: !s.show_help, ..s }, Intent::Nothing)
        } else {
            (s, Intent::Nothing)
        },
        KeyCode::Tab | KeyCode::Right => (
            UiState { active_pane: next_spec(s.active_pane), ..s },
            Intent::Nothing,
        ),
        KeyCode::BackTab | KeyCode::Left => (
            UiState { active_pane: prev_spec(s.active_pane), ..s },
            Intent::Nothing,
        ),
        KeyCode::Up => if on_sidebar {
            (s, Intent::SidebarUp)
        } else if on_messages {
            (s, Intent::MessagesPrevious)
        } else {
            (s, Intent::Nothing)
        },
        KeyCode::Down => if on_sidebar {
            (s, Intent::SidebarDown)
        } else if on_messages {
            (s, Intent::MessagesNext)
        } else {
            (s, Intent::Nothing)
        },
        KeyCode::Enter => if on_sidebar {
            (s, Intent::SidebarEnter)
        } else if on_messages {
            (s, Intent::MessagesToggleThread)
        } else {
            (s, Intent::Nothing)
        },
        _ => (s, Intent::Nothing),
    }
}

/// What a key event does: only presses count; with help shown, any key
/// closes it; with the search overlay open, the key goes to the search;
/// Ctrl+K opens the search with an empty query and Ctrl+D shows or hides
/// the debug log from anywhere; with the debug log shown, Page Up scrolls
/// it 10 lines back and Page Down 10 lines forward (not past the newest);
/// otherwise the compose pane or the navigation handles the key.
pub open spec fn key_step(s: UiState, k: Key) -> (UiState, Intent) {
    if !k.press {
        (s, Intent::Nothing)
    } else if s.show_help {
        (UiState { show_help: false, ..s }, Intent::Nothing)
    } else if s.search_active {
        search_key(s, k)
    } else if k.code == KeyCode::Char('k') && k.ctrl {
        (
            UiState { search_active: true, query: Seq::empty(), cursor: 0, ..s },
            Intent::SearchOpen,
        )
    } else if k.code == KeyCode::Char('d') && k.ctrl {
        (UiState { debug_visible: !s.debug_visible, ..s }, Intent::Nothing)
    } else if s.debug_visible && k.code == KeyCode::PageUp {
        (
            UiState {
                debug_scroll: if s.debug_scroll + DEBUG_SCROLL_STEP <= usize::MAX {
                    s.debug_scroll + DEBUG_SCROLL_STEP
                } else {
                    usize::MAX as int
                },
                ..s
            },
            Intent::Nothing,
        )
    } else if s.debug_visible && k.code == KeyCode::PageDown {
        (
            UiState {
                debug_scroll: if s.debug_scroll >= DEBUG_SCROLL_STEP {
                    s.debug_scroll - DEBUG_SCROLL_STEP
                } else {
                    0
                },
                ..s
            },
            Intent::Nothing,
        )
    } else if s.active_pane == Pane::Compose {
        compose_key(s, k)
    } else {
        navigation_key(s, k)
    }
}

/// Outside the compose pane (with no help popup or search open), Up acts as
/// `k` and Down as `j`; on the messages pane Up selects the previous message
/// and Down the next, on the sidebar they move up and down; and neither
/// changes the state.
pub proof fn lemma_vertical_keys(s: UiState, up: Key, k: Key, down: Key, j: Key)
    requires
        !s.show_help,
        !s.search_active,
        s.active_pane != Pane::Compose,
        up.press && up.code == KeyCode::Up,
        down.press && down.code == KeyCode::Down,
        k.press && k.code == KeyCode::Char('k') && !k.ctrl,
        j.press && j.code == KeyCode::Char('j') && !j.ctrl,
    ensures
        key_step(s, up) == key_step(s, k),
        key_step(s, down) == key_step(s, j),
        key_step(s, up).1 != key_step(s, down).1,
        s.active_pane == Pane::Messages ==> key_step(s, up) == (s, Intent::MessagesPrevious)
            && key_step(s, down) == (s, Intent::MessagesNext),
        s.active_pane == Pane::Sidebar ==> key_step(s, up) == (s, Intent::SidebarUp) && key_step(
            s,
            down,
        ) == (s, Intent::SidebarDown),
{
}

/// Outside the compose pane (with no help popup or search open), Right acts
/// as Tab and Left as Shift+Tab; Right moves focus to the next pane and
/// Left back, so Left undoes Right; `q` asks to quit and changes nothing
/// else; `1`, `2`, `3` focus the sidebar, the messages and the compose box.
pub proof fn lemma_focus_keys(s: UiState, tab: Key, right: Key, backtab: Key, left: Key, digit: Key, q: Key)
    requires
        !s.show_help,
        !s.search_active,
        s.active_pane != Pane::Compose,
        tab.press && tab.code == KeyCode::Tab,
        right.press && right.code == KeyCode::Right,
        backtab.press && backtab.code == KeyCode::BackTab,
        left.press && left.code == KeyCode::Left,
        digit.press && !digit.ctrl,
        q.press && q.code == KeyCode::Char('q'),
    ensures
        key_step(s, right) == key_step(s, tab),
        key_step(s, left) == key_step(s, backtab),
        key_step(s, right).0.active_pane == next_spec(s.active_pane),
        key_step(s, left).0.active_pane == prev_spec(s.active_pane),
        key_step(s, right).0.active_pane != Pane::Compose ==> key_step(key_step(s, right).0, left).0
            == s,
        key_step(s, q) == (UiState { should_exit: true, ..s }, Intent::Nothing),
        digit.code == KeyCode::Char('1') ==> key_step(s, digit).0.active_pane == Pane::Sidebar,
        digit.code == KeyCode::Char('2') ==> key_step(s, digit).0.active_pane == Pane::Messages,
        digit.code == KeyCode::Char('3') ==> key_step(s, digit).0.active_pane == Pane::Compose,
{
}

/// With the debug log shown, Page Down undoes Page Up (short of the
/// largest offset).
pub proof fn lemma_debug_scroll_round_trip(s: UiState, up: Key, down: Key)
    requires
        s.debug_visible,
        !s.show_help,
        !s.search_active,
        0 <= s.debug_scroll,
        s.debug_scroll + DEBUG_SCROLL_STEP <= usize::MAX,
        up.press && up.code == KeyCode::PageUp,
        down.press && down.code == KeyCode::PageDown,
    ensures
        key_step(key_step(s, up).0, down) == (s, Intent::Nothing),
{
}

/// On the search overlay, Backspace undoes typing a character: the query
/// and the cursor are as they were.
pub proof fn lemma_search_typing_undone(s: UiState, typed: Key, back: Key, c: char)
    requires
        s.search_active,
        !s.show_help,
        0 <= s.cursor <= s.query.len(),
        typed.press && typed.code == KeyCode::Char(c) && plain(typed),
        back.press && back.code == KeyCode::Backspace,
    ensures
        key_step(key_step(s, typed).0, back).0 == s,
{
    let t = key_step(s, typed).0;
    assert(t.query.remove(s.cursor) =~= s.query);
}

/// An entry of the sidebar list.
#[derive(Debug, Clone, Copy, PartialEq, Eq, Structural)]
pub enum SidebarItem {
    TeamsHeader,
    Team(usize),
    Channel(usize, usize),
    ChatsHeader,
    Chat(usize),
}

/// What a search result points at.
#[derive(Debug, Clone, Copy, PartialEq, Eq, Structural)]
pub enum SearchTarget {
    /// A channel: team index and channel index.
    Channel(usize, usize),
    /// A chat, by index.
    Chat(usize),
    /// A message of the open chat, by index.
    Message(usize),
}

/// Commands sent from the interface to the backend.
#[derive(Debug)]
pub enum BackendCommand {
    LoadTeams,
    LoadChats { limit: usize },
    LoadMessages { chat_id: String, limit: usize },
    SendMessage { chat_id: String, message: String },
    LoadUserInfo,
    LoadPresence,
}

/// The number of messages loaded when a chat is opened or refreshed.
pub const MESSAGE_PAGE: usize = 50;

/// The loads fired when the interface starts: teams, the first 50 chats,
/// the user and the presence.
pub fn initial_commands() -> (r: Vec<BackendCommand>)
    ensures
        r@.len() == 4,
        r@[0] is LoadTeams,
        r@[1] matches BackendCommand::LoadChats { limit } && limit == 50,
        r@[2] is LoadUserInfo,
        r@[3] is LoadPresence,
{
    let mut v: Vec<BackendCommand> = Vec::new();
    v.push(BackendCommand::LoadTeams);
    v.push(BackendCommand::LoadChats { limit: MESSAGE_PAGE });
    v.push(BackendCommand::LoadUserInfo);
    v.push(BackendCommand::LoadPresence);
    v
}

/// A request the backend makes of the services.
#[derive(Debug)]
pub enum ServiceCall {
    ListTeams,
    ListChats { limit: usize },
    ReadMessages { chat_id: String, limit: usize },
    SendMessage { chat_id: String, message: String },
    WhoAmI,
    GetPresence,
}

/// The request the backend makes of the services for `cmd`: teams, chats,
/// messages, sending, the signed-in user or the presence, with the command's
/// arguments. When the services could not be built (`wired` false; the
/// failure was already shown) every command is dropped.
pub fn dispatch(cmd: BackendCommand, wired: bool) -> (r: Option<ServiceCall>)
    ensures
        !wired ==> r is None,
        wired ==> match cmd {
            BackendCommand::LoadTeams => r matches Some(ServiceCall::ListTeams),
            BackendCommand::LoadChats { limit } => r matches Some(ServiceCall::ListChats { limit: l })
                && l == limit,
            BackendCommand::LoadMessages { chat_id, limit } => r matches Some(
                ServiceCall::ReadMessages { chat_id: c, limit: l },
            ) && c == chat_id && l == limit,
            BackendCommand::SendMessage { chat_id, message } => r matches Some(
                ServiceCall::SendMessage { chat_id: c, message: m },
            ) && c == chat_id && m == message,
            BackendCommand::LoadUserInfo => r matches Some(ServiceCall::WhoAmI),
            BackendCommand::LoadPresence => r matches Some(ServiceCall::GetPresence),
        },
{
    if !wired {
        return None;
    }
    match cmd {
        BackendCommand::LoadTeams => Some(ServiceCall::ListTeams),
        BackendCommand::LoadChats { limit } => Some(ServiceCall::ListChats { limit }),
        BackendCommand::LoadMessages { chat_id, limit } => Some(
            ServiceCall::ReadMessages { chat_id, limit },
        ),
        BackendCommand::SendMessage { chat_id, message } => Some(
            ServiceCall::SendMessage { chat_id, message },
        ),
        BackendCommand::LoadUserInfo => Some(ServiceCall::WhoAmI),
        BackendCommand::LoadPresence => Some(ServiceCall::GetPresence),
    }
}

/// What the backend forwards once a service call has finished: nothing on
/// success (the service presented its result itself), the error's update on
/// failure.
pub fn forward_error(result: DomainResult<()>) -> (r: Option<TuiUpdate>)
    ensures
        match result {
            Ok(_) => r is None,
            Err(e) => r matches Some(TuiUpdate::Error(m)) && m@ == e.spec_display(),
        },
{
    match result {
        Ok(()) => None,
        Err(e) => Some(TuiPresenter::new().show_error(&e)),
    }
}

/// A presentation update sent by the services.
#[derive(Debug)]
pub enum TuiUpdate {
    Teams(Vec<Team>),
    Chats(Vec<Chat>),
    Messages(Vec<Message>),
    MessageSent(SentMessage),
    User(User),
    Presence(Presence),
    Event(RealtimeEvent),
    Error(String),
}

/// The presenter of the interface: each thing the services present becomes
/// one [`TuiUpdate`] carrying it, which the caller hands to the interface's
/// event loop. An error is carried as its message.
#[derive(Debug, Clone, Copy)]
pub struct TuiPresenter;

impl TuiPresenter {
    pub fn new() -> (r: Self) {
        TuiPresenter
    }

    /// Replace the chats shown in the sidebar.
    pub fn show_chats(&self, chats: Vec<Chat>) -> (r: TuiUpdate)
        ensures
            r == TuiUpdate::Chats(chats),
    {
        TuiUpdate::Chats(chats)
    }

    /// Replace the messages shown in the messages pane.
    pub fn show_messages(&self, messages: Vec<Message>) -> (r: TuiUpdate)
        ensures
            r == TuiUpdate::Messages(messages),
    {
        TuiUpdate::Messages(messages)
    }

    /// A message was sent.
    pub fn message_sent(&self, sent: SentMessage) -> (r: TuiUpdate)
        ensures
            r == TuiUpdate::MessageSent(sent),
    {
        TuiUpdate::MessageSent(sent)
    }

    /// Update the availability indicator.
    pub fn show_presence(&self, presence: Presence) -> (r: TuiUpdate)
        ensures
            r == TuiUpdate::Presence(presence),
    {
        TuiUpdate::Presence(presence)
    }

    /// Update the signed-in user.
    pub fn show_user(&self, user: User) -> (r: TuiUpdate)
        ensures
            r == TuiUpdate::User(user),
    {
        TuiUpdate::User(user)
    }

    /// Replace the teams shown in the sidebar.
    pub fn show_teams(&self, teams: Vec<Team>) -> (r: TuiUpdate)
        ensures
            r == TuiUpdate::Teams(teams),
    {
        TuiUpdate::Teams(teams)
    }

    /// A realtime event arrived.
    pub fn notify_event(&self, event: RealtimeEvent) -> (r: TuiUpdate)
        ensures
            r == TuiUpdate::Event(event),
    {
        TuiUpdate::Event(event)
    }

    /// A service failed: the update carries the error's message.
    pub fn show_error(&self, error: &DomainError) -> (r: TuiUpdate)
        ensures
            r matches TuiUpdate::Error(m) && m@ == error.spec_display(),
    {
        TuiUpdate::Error(error.to_string())
    }
}

/// What folding an update asks of the caller beyond the state of [`App`].
#[derive(Debug)]
pub enum UpdateEffect {
    Nothing,
    /// Store the teams in the sidebar; select its first selectable item when
    /// `clamp_selection`.
    StoreTeams { teams: Vec<Team>, clamp_selection: bool },
    /// Store the chats in the sidebar.
    StoreChats(Vec<Chat>),
    /// Show the messages under the header of the open chat.
    StoreMessages { header: String, messages: Vec<Message> },
    /// Send the command to the backend.
    Send(BackendCommand),
}

/// What pressing Enter on a sidebar item asks of the caller.
#[derive(Debug)]
pub enum EnterEffect {
    Nothing,
    /// A team was expanded or collapsed: keep the selection in range.
    ToggleTeam,
    /// A chat was opened: send the command that loads its messages.
    Open(BackendCommand),
}

/// The first position of `target` in `items`.
pub open spec fn first_index(items: Seq<SidebarItem>, target: SidebarItem) -> Option<int>
    decreases items.len(),
{
    if items.len() == 0 {
        None
    } else if items[0] == target {
        Some(0)
    } else {
        match first_index(items.drop_first(), target) {
            Some(i) => Some(i + 1),
            None => None,
        }
    }
}

/// The entries of team `t`: the team, then its `channels` channels when the
/// team is expanded.
pub open spec fn team_block(t: int, channels: nat, expanded: bool) -> Seq<SidebarItem> {
    seq![SidebarItem::Team(t as usize)] + if expanded {
        Seq::new(channels, |c: int| SidebarItem::Channel(t as usize, c as usize))
    } else {
        Seq::empty()
    }
}

/// The entries of the first `n` teams, in order.
pub open spec fn teams_items(channels: Seq<usize>, expanded: Seq<bool>, n: nat) -> Seq<SidebarItem>
    decreases n,
{
    if n == 0 {
        Seq::empty()
    } else {
        teams_items(channels, expanded, (n - 1) as nat) + team_block(
            n - 1,
            channels[n - 1] as nat,
            expanded[n - 1],
        )
    }
}

/// The sidebar list: the teams header, each team followed by its channels
/// when expanded, the chats header, then the chats.
pub open spec fn sidebar_items(channels: Seq<usize>, expanded: Seq<bool>, chats: nat) -> Seq<
    SidebarItem,
> {
    seq![SidebarItem::TeamsHeader] + teams_items(channels, expanded, channels.len()) + seq![
        SidebarItem::ChatsHeader,
    ] + Seq::new(chats, |i: int| SidebarItem::Chat(i as usize))
}

/// The selection that points at the first `target` in `items`, or `fallback`
/// where there is none.
pub open spec fn select_first(items: Seq<SidebarItem>, target: SidebarItem, fallback: usize) -> usize {
    match first_index(items, target) {
        Some(i) => i as usize,
        None => fallback,
    }
}

/// Application state of the interface.
#[derive(Debug)]
pub struct App {
    /// Whether the app should exit.
    pub should_exit: bool,
    /// Online status (for display).
    pub is_online: bool,
    /// Current user name.
    pub user_name: String,
    /// Current channel name.
    pub channel_name: String,
    /// Member count.
    pub member_count: u32,
    /// Connection state description.
    pub connection_state: String,
    /// Active pane.
    pub active_pane: Pane,
    /// Whether the help popup is visible.
    pub show_help: bool,
    /// Whether the search overlay is open.
    pub search_active: bool,
    /// Whether the sidebar waits for data.
    pub sidebar_loading: bool,
    /// The selected sidebar entry.
    pub sidebar_selected: usize,
    /// Whether the messages pane waits for data.
    pub messages_loading: bool,
    /// The header of the messages pane.
    pub channel_header: String,
    /// The selected message.
    pub message_selected: usize,
    /// The chat/channel id currently being viewed.
    pub current_chat_id: Option<String>,
    /// Status message shown in the status bar (errors, info).
    pub status_message: Option<String>,
    /// Whether the status message is an error.
    pub status_is_error: bool,
    /// Whether the debug log pane is shown.
    pub debug_visible: bool,
    /// How many lines the debug log is scrolled back from the newest.
    pub debug_scroll: usize,
    /// The query typed into the search overlay.
    pub search_query: Vec<char>,
    /// The search cursor: a position between the query's characters.
    pub search_cursor: usize,
    /// For each team, the number of its channels.
    pub team_channels: Vec<usize>,
    /// For each team, whether the sidebar shows its channels.
    pub team_expanded: Vec<bool>,
    /// The number of chats in the sidebar.
    pub chat_count: usize,
    /// The number of messages shown.
    pub message_count: usize,
}

impl App {
    /// The part of the state that key presses change.
    pub open spec fn ui(&self) -> UiState {
        UiState {
            should_exit: self.should_exit,
            show_help: self.show_help,
            active_pane: self.active_pane,
            search_active: self.search_active,
            query: self.search_query@,
            cursor: self.search_cursor as int,
            debug_visible: self.debug_visible,
            debug_scroll: self.debug_scroll as int,
        }
    }

    /// The search cursor lies within the query, and every team has both a
    /// channel count and an expanded flag.
    pub open spec fn wf(&self) -> bool {
        &&& self.search_cursor <= self.search_query@.len()
        &&& self.team_expanded@.len() == self.team_channels@.len()
    }

    /// The sidebar list as the state describes it.
    pub open spec fn sidebar_view(&self) -> Seq<SidebarItem> {
        sidebar_items(self.team_channels@, self.team_expanded@, self.chat_count as nat)
    }

    /// Everything but the key-driven state and the status bar is as in `other`.
    pub open spec fn same_data(&self, other: App) -> bool {
        &&& self.is_online == other.is_online
        &&& self.user_name == other.user_name
        &&& self.channel_name == other.channel_name
        &&& self.member_count == other.member_count
        &&& self.connection_state == other.connection_state
        &&& self.sidebar_loading == other.sidebar_loading
        &&& self.sidebar_selected == other.sidebar_selected
        &&& self.messages_loading == other.messages_loading
        &&& self.channel_header == other.channel_header
        &&& self.message_selected == other.message_selected
        &&& self.current_chat_id == other.current_chat_id
        &&& self.team_channels == other.team_channels
        &&& self.team_expanded == other.team_expanded
        &&& self.chat_count == other.chat_count
        &&& self.message_count == other.message_count
    }

    /// The state at start-up: nothing loaded yet (`Loading...`,
    /// `Connecting...`), focus on the sidebar, no chat open, no status.
    pub fn new() -> (r: Self)
        ensures
            !r.should_exit,
            !r.is_online,
            r.user_name@ == "Loading..."@,
            r.channel_name@ == Seq::<char>::empty(),
            r.member_count == 0,
            r.connection_state@ == "Connecting..."@,
            r.active_pane == Pane::Sidebar,
            !r.show_help,
            !r.search_active,
            r.sidebar_loading,
            r.sidebar_selected == 0,
            !r.messages_loading,
            r.channel_header@ == Seq::<char>::empty(),
            r.message_selected == 0,
            r.current_chat_id is None,
            r.status_message is None,
            !r.status_is_error,
            !r.debug_visible,
            r.debug_scroll == 0,
            r.search_query@ == Seq::<char>::empty(),
            r.search_cursor == 0,
            r.team_channels@ == Seq::<usize>::empty(),
            r.team_expanded@ == Seq::<bool>::empty(),
            r.chat_count == 0,
            r.message_count == 0,
            r.wf(),
    {
        App {
            should_exit: false,
            is_online: false,
            user_name: owned("Loading..."),
            channel_name: String::new(),
            member_count: 0,
            connection_state: owned("Connecting..."),
            active_pane: Pane::Sidebar,
            show_help: false,
            search_active: false,
            sidebar_loading: true,
            sidebar_selected: 0,
            messages_loading: false,
            channel_header: String::new(),
            message_selected: 0,
            current_chat_id: None,
            status_message: None,
            status_is_error: false,
            debug_visible: false,
            debug_scroll: 0,
            search_query: Vec::new(),
            search_cursor: 0,
            team_channels: Vec::new(),
            team_expanded: Vec::new(),
            chat_count: 0,
            message_count: 0,
        }
    }

    /// Cycle to the next pane.
    pub fn next_pane(&mut self)
        ensures
            *final(self) == (App { active_pane: next_spec(old(self).active_pane), ..*old(self) }),
    {
        self.active_pane = match self.active_pane {
            Pane::Sidebar => Pane::Messages,
            Pane::Messages => Pane::Compose,
            Pane::Compose => Pane::Sidebar,
        };
    }

    /// Cycle to the previous pane (the reverse of [`next_pane`](Self::next_pane)).
    pub fn prev_pane(&mut self)
        ensures
            *final(self) == (App { active_pane: prev_spec(old(self).active_pane), ..*old(self) }),
    {
        self.active_pane = match self.active_pane {
            Pane::Sidebar => Pane::Compose,
            Pane::Messages => Pane::Sidebar,
            Pane::Compose => Pane::Messages,
        };
    }

    /// Close the search overlay if it is open, so that stale result indices
    /// never point at new data.
    pub fn close_stale_search(&mut self)
        ensures
            *final(self) == (App { search_active: false, ..*old(self) }),
    {
        if self.search_active {
            self.search_active = false;
        }
    }

    /// Show an error in the status bar.
    pub fn set_error(&mut self, msg: String)
        ensures
            *final(self) == (App { status_message: Some(msg), status_is_error: true, ..*old(self) }),
    {
        self.status_message = Some(msg);
        self.status_is_error = true;
    }

    /// Handle a key event (see [`key_step`]): a press that does not merely
    /// close the help popup also clears the status message. The returned
    /// intent is for the pane states the caller keeps (the search results,
    /// the compose box, the sidebar cursor and the message list).
    pub fn handle_event(&mut self, key: Key) -> (r: Intent)
        requires
            old(self).wf(),
        ensures
            final(self).wf(),
            (final(self).ui(), r) == key_step(old(self).ui(), key),
            final(self).same_data(*old(self)),
            final(self).status_is_error == old(self).status_is_error,
            if key.press && !old(self).show_help {
                final(self).status_message is None
            } else {
                final(self).status_message == old(self).status_message
            },
    {
        if !key.press {
            return Intent::Nothing;
        }
        if self.show_help {
            self.show_help = false;
            return Intent::Nothing;
        }
        self.status_message = None;
        if self.search_active {
            return self.handle_search_key(key);
        }
        if key.code == KeyCode::Char('k') && key.ctrl {
            self.search_active = true;
            self.search_query = Vec::new();
            self.search_cursor = 0;
            return Intent::SearchOpen;
        }
        if key.code == KeyCode::Char('d') && key.ctrl {
            self.debug_visible = !self.debug_visible;
            return Intent::Nothing;
        }
        if self.debug_visible && key.code == KeyCode::PageUp {
            self.debug_scroll = if self.debug_scroll <= usize::MAX - DEBUG_SCROLL_STEP {
                self.debug_scroll + DEBUG_SCROLL_STEP
            } else {
                usize::MAX
            };
            return Intent::Nothing;
        }
        if self.debug_visible && key.code == KeyCode::PageDown {
            self.debug_scroll = if self.debug_scroll >= DEBUG_SCROLL_STEP {
                self.debug_scroll - DEBUG_SCROLL_STEP
            } else {
                0
            };
            return Intent::Nothing;
        }
        if self.active_pane == Pane::Compose {
            self.handle_compose_key(key)
        } else {
            self.handle_navigation_key(key)
        }
    }

    /// A key press on the open search overlay (see [`search_key`]).
    pub fn handle_search_key(&mut self, key: Key) -> (r: Intent)
        requires
            old(self).wf(),
        ensures
            final(self).wf(),
            (final(self).ui(), r) == search_key(old(self).ui(), key),
            final(self).same_data(*old(self)),
            final(self).status_message == old(self).status_message,
            final(self).status_is_error == old(self).status_is_error,
    {
        match key.code {
            KeyCode::Esc => {
                self.search_active = false;
                Intent::SearchClose
            },
            KeyCode::Up => Intent::SearchPrevious,
            KeyCode::Down => Intent::SearchNext,
            KeyCode::Enter => Intent::SearchSelect,
            KeyCode::Backspace => {
                if self.search_cursor > 0 {
                    let _removed: char = self.search_query.remove(self.search_cursor - 1);
                    self.search_cursor = self.search_cursor - 1;
                }
                Intent::SearchChanged
            },
            KeyCode::Delete => {
                if self.search_cursor < self.search_query.len() {
                    let _removed: char = self.search_query.remove(self.search_cursor);
                }
                Intent::SearchChanged
            },
            KeyCode::Left => {
                if self.search_cursor > 0 {
                    self.search_cursor = self.search_cursor - 1;
                }
                Intent::Nothing
            },
            KeyCode::Right => {
                if self.search_cursor < self.search_query.len() {
                    self.search_cursor = self.search_cursor + 1;
                }
                Intent::Nothing
            },
            KeyCode::Home => {
                self.search_cursor = 0;
                Intent::Nothing
            },
            KeyCode::End => {
                self.search_cursor = self.search_query.len();
                Intent::Nothing
            },
            KeyCode::Char(c) => {
                if !key.ctrl && !key.other_modifier {
                    self.search_query.insert(self.search_cursor, c);
                    let len: usize = self.search_query.len();
                    assert(self.search_cursor < len);
                    self.search_cursor = self.search_cursor + 1;
                    Intent::SearchChanged
                } else {
                    Intent::Nothing
                }
            },
            _ => Intent::Nothing,
        }
    }

    /// A key press in the compose pane (see [`compose_key`]).
    pub fn handle_compose_key(&mut self, key: Key) -> (r: Intent)
        ensures
            (final(self).ui(), r) == compose_key(old(self).ui(), key),
            final(self).same_data(*old(self)),
            final(self).status_message == old(self).status_message,
            final(self).status_is_error == old(self).status_is_error,
    {
        match key.code {
            KeyCode::Tab => {
                self.next_pane();
                Intent::Nothing
            },
            KeyCode::BackTab => {
                self.prev_pane();
                Intent::Nothing
            },
            KeyCode::Esc => {
                self.active_pane = Pane::Messages;
                Intent::Nothing
            },
            KeyCode::Enter => {
                if key.ctrl {
                    Intent::ComposeNewline
                } else {
                    Intent::ComposeSend
                }
            },
            KeyCode::Char(c) => {
                if c == 'u' && key.ctrl {
                    Intent::ComposeClear
                } else if !key.ctrl && !key.other_modifier {
                    Intent::ComposeInsert(c)
                } else {
                    Intent::Nothing
                }
            },
            KeyCode::Backspace => Intent::ComposeBackspace,
            KeyCode::Delete => Intent::ComposeDelete,
            KeyCode::Left => Intent::ComposeLeft,
            KeyCode::Right => Intent::ComposeRight,
            KeyCode::Home => Intent::ComposeHome,
            KeyCode::End => Intent::ComposeEnd,
            _ => Intent::Nothing,
        }
    }

    /// A key press outside the compose pane (see [`navigation_key`]).
    pub fn handle_navigation_key(&mut self, key: Key) -> (r: Intent)
        ensures
            (final(self).ui(), r) == navigation_key(old(self).ui(), key),
            final(self).same_data(*old(self)),
            final(self).status_message == old(self).status_message,
            final(self).status_is_error == old(self).status_is_error,
    {
        let on_sidebar = self.active_pane == Pane::Sidebar;
        let on_messages = self.active_pane == Pane::Messages;
        match key.code {
            KeyCode::Char(c) => {
                if c == 'q' {
                    self.should_exit = true;
                    Intent::Nothing
                } else if c == '1' {
                    self.active_pane = Pane::Sidebar;
                    Intent::Nothing
                } else if c == '2' {
                    self.active_pane = Pane::Messages;
                    Intent::Nothing
                } else if c == '3' {
                    self.active_pane = Pane::Compose;
                    Intent::Nothing
                } else if c == 'k' && on_sidebar {
                    Intent::SidebarUp
                } else if c == 'j' && on_sidebar {
                    Intent::SidebarDown
                } else if c == 'k' && on_messages {
                    Intent::MessagesPrevious
                } else if c == 'j' && on_messages {
                    Intent::MessagesNext
                } else if c == '?' {
                    self.show_help = !self.show_help;
                    Intent::Nothing
                } else {
                    Intent::Nothing
                }
            },
            KeyCode::Tab | KeyCode::Right => {
                self.next_pane();
                Intent::Nothing
            },
            KeyCode::BackTab | KeyCode::Left => {
                self.prev_pane();
                Intent::Nothing
            },
            KeyCode::Up => {
                if on_sidebar {
                    Intent::SidebarUp
                } else if on_messages {
                    Intent::MessagesPrevious
                } else {
                    Intent::Nothing
                }
            },
            KeyCode::Down => {
                if on_sidebar {
                    Intent::SidebarDown
                } else if on_messages {
                    Intent::MessagesNext
                } else {
                    Intent::Nothing
                }
            },
            KeyCode::Enter => {
                if on_sidebar {
                    Intent::SidebarEnter
                } else if on_messages {
                    Intent::MessagesToggleThread
                } else {
                    Intent::Nothing
                }
            },
            _ => Intent::Nothing,
        }
    }

    /// Send the text taken from the compose box, if any, to the open chat;
    /// with no chat open, show `No chat selected. Select a channel or chat
    /// first.` as an error instead.
    pub fn send_composed(&mut self, text: Option<String>) -> (r: Option<BackendCommand>)
        ensures
            final(self).same_data(*old(self)),
            final(self).ui() == old(self).ui(),
            match text {
                None => r is None && final(self).status_message == old(self).status_message
                    && final(self).status_is_error == old(self).status_is_error,
                Some(t) => match old(self).current_chat_id {
                    Some(id) => (r matches Some(BackendCommand::SendMessage { chat_id, message })
                        && chat_id@ == id@ && message == t) && final(self).status_message == old(
                        self,
                    ).status_message && final(self).status_is_error == old(self).status_is_error,
                    None => r is None && (final(self).status_message matches Some(m) && m@
                        == "No chat selected. Select a channel or chat first."@)
                        && final(self).status_is_error,
                },
            },
    {
        match text {
            None => None,
            Some(t) => match &self.current_chat_id {
                Some(id) => Some(BackendCommand::SendMessage { chat_id: owned(id.as_str()), message: t }),
                None => {
                    self.status_message = Some(
                        owned("No chat selected. Select a channel or chat first."),
                    );
                    self.status_is_error = true;
                    None
                },
            },
        }
    }

    /// Enter on the selected sidebar item: a team is expanded or collapsed;
    /// a channel or chat with an id is opened (it becomes the current chat,
    /// its name the channel name and message header, the message list is
    /// emptied and its messages load); a header, or nothing selected, does
    /// nothing.
    pub fn handle_sidebar_enter(
        &mut self,
        item: Option<SidebarItem>,
        selected_id: Option<String>,
        selected_name: Option<String>,
    ) -> (r: EnterEffect)
        requires
            old(self).wf(),
        ensures
            final(self).wf(),
            match item {
                Some(SidebarItem::Team(t)) => {
                    &&& r is ToggleTeam
                    &&& *final(self) == (App { team_expanded: final(self).team_expanded, ..*old(self) })
                    &&& final(self).team_expanded@ == if t < old(self).team_expanded@.len() {
                        old(self).team_expanded@.update(t as int, !old(self).team_expanded@[t as int])
                    } else {
                        old(self).team_expanded@
                    }
                },
                Some(SidebarItem::Channel(_, _)) | Some(SidebarItem::Chat(_)) => match selected_id {
                    Some(id) => {
                        let name = match selected_name {
                            Some(n) => n@,
                            None => Seq::<char>::empty(),
                        };
                        &&& r matches EnterEffect::Open(BackendCommand::LoadMessages { chat_id, limit })
                            && chat_id@ == id@ && limit == 50
                        &&& *final(self) == (App {
                            current_chat_id: final(self).current_chat_id,
                            channel_name: final(self).channel_name,
                            channel_header: final(self).channel_header,
                            messages_loading: true,
                            message_count: 0,
                            ..*old(self)
                        })
                        &&& final(self).current_chat_id matches Some(c) && c@ == id@
                        &&& final(self).channel_name@ == name
                        &&& final(self).channel_header@ == name
                    },
                    None => r is Nothing && *final(self) == *old(self),
                },
                _ => r is Nothing && *final(self) == *old(self),
            },
    {
        match item {
            Some(SidebarItem::Team(t)) => {
                if t < self.team_expanded.len() {
                    let expanded: bool = self.team_expanded[t];
                    self.team_expanded.set(t, !expanded);
                }
                EnterEffect::ToggleTeam
            },
            Some(SidebarItem::Channel(_, _)) | Some(SidebarItem::Chat(_)) => match selected_id {
                Some(id) => {
                    let name = match selected_name {
                        Some(n) => n,
                        None => String::new(),
                    };
                    self.current_chat_id = Some(owned(id.as_str()));
                    self.channel_name = owned(name.as_str());
                    self.messages_loading = true;
                    self.channel_header = name;
                    self.message_count = 0;
                    EnterEffect::Open(BackendCommand::LoadMessages { chat_id: id, limit: MESSAGE_PAGE })
                },
                None => EnterEffect::Nothing,
            },
            _ => EnterEffect::Nothing,
        }
    }

    /// The sidebar list: the teams header, each team followed by its
    /// channels when expanded, the chats header, then the chats.
    pub fn flat_items(&self) -> (r: Vec<SidebarItem>)
        requires
            self.wf(),
        ensures
            r@ == self.sidebar_view(),
    {
        let mut v: Vec<SidebarItem> = Vec::new();
        v.push(SidebarItem::TeamsHeader);
        let n: usize = self.team_channels.len();
        let mut t: usize = 0;
        while t < n
            invariant
                self.wf(),
                n == self.team_channels@.len(),
                t <= n,
                v@ == seq![SidebarItem::TeamsHeader] + teams_items(
                    self.team_channels@,
                    self.team_expanded@,
                    t as nat,
                ),
            decreases n - t,
        {
            let ghost before = v@;
            v.push(SidebarItem::Team(t));
            if self.team_expanded[t] {
                let k: usize = self.team_channels[t];
                let mut c: usize = 0;
                while c < k
                    invariant
                        c <= k,
                        v@ == before + seq![SidebarItem::Team(t)] + Seq::new(
                            c as nat,
                            |j: int| SidebarItem::Channel(t, j as usize),
                        ),
                    decreases k - c,
                {
                    v.push(SidebarItem::Channel(t, c));
                    c = c + 1;
                    assert(v@ =~= before + seq![SidebarItem::Team(t)] + Seq::new(
                        c as nat,
                        |j: int| SidebarItem::Channel(t, j as usize),
                    ));
                }
            }
            proof {
                let blk = team_block(
                    t as int,
                    self.team_channels@[t as int] as nat,
                    self.team_expanded@[t as int],
                );
                if self.team_expanded@[t as int] {
                    assert(blk =~= seq![SidebarItem::Team(t)] + Seq::new(
                        self.team_channels@[t as int] as nat,
                        |j: int| SidebarItem::Channel(t, j as usize),
                    ));
                } else {
                    assert(blk =~= seq![SidebarItem::Team(t)]);
                }
                assert(v@ =~= seq![SidebarItem::TeamsHeader] + teams_items(
                    self.team_channels@,
                    self.team_expanded@,
                    (t + 1) as nat,
                ));
            }
            t = t + 1;
        }
        v.push(SidebarItem::ChatsHeader);
        let ghost head = v@;
        let mut i: usize = 0;
        while i < self.chat_count
            invariant
                i <= self.chat_count,
                v@ == head + Seq::new(i as nat, |j: int| SidebarItem::Chat(j as usize)),
            decreases self.chat_count - i,
        {
            v.push(SidebarItem::Chat(i));
            i = i + 1;
            assert(v@ =~= head + Seq::new(i as nat, |j: int| SidebarItem::Chat(j as usize)));
        }
        assert(v@ =~= self.sidebar_view());
        v
    }

    /// Apply the selected search result and close the search: a channel's
    /// team is expanded and the channel selected in the sidebar, a chat is
    /// selected in the sidebar (each at its first position in the sidebar
    /// list, the selection kept where it is not listed), and the sidebar
    /// gets focus; a message that is shown is selected and the messages get
    /// focus. With no result the search just closes.
    pub fn apply_search_selection(&mut self, result: Option<SearchTarget>)
        requires
            old(self).wf(),
            match result {
                Some(SearchTarget::Channel(t, _)) => t < old(self).team_expanded@.len(),
                _ => true,
            },
        ensures
            final(self).wf(),
            match result {
                None => *final(self) == (App { search_active: false, ..*old(self) }),
                Some(SearchTarget::Channel(t, c)) => {
                    &&& final(self).team_expanded@ == old(self).team_expanded@.update(
                        t as int,
                        true,
                    )
                    &&& *final(self) == (App {
                        search_active: false,
                        active_pane: Pane::Sidebar,
                        team_expanded: final(self).team_expanded,
                        sidebar_selected: select_first(
                            final(self).sidebar_view(),
                            SidebarItem::Channel(t, c),
                            old(self).sidebar_selected,
                        ),
                        ..*old(self)
                    })
                },
                Some(SearchTarget::Chat(c)) => *final(self) == (App {
                    search_active: false,
                    active_pane: Pane::Sidebar,
                    sidebar_selected: select_first(
                        old(self).sidebar_view(),
                        SidebarItem::Chat(c),
                        old(self).sidebar_selected,
                    ),
                    ..*old(self)
                }),
                Some(SearchTarget::Message(m)) => *final(self) == (App {
                    search_active: false,
                    active_pane: Pane::Messages,
                    message_selected: if m < old(self).message_count {
                        m
                    } else {
                        old(self).message_selected
                    },
                    ..*old(self)
                }),
            },
    {
        match result {
            None => {},
            Some(SearchTarget::Channel(ti, ci)) => {
                self.team_expanded.set(ti, true);
                let items = self.flat_items();
                if let Some(i) = find_item(items.as_slice(), SidebarItem::Channel(ti, ci)) {
                    self.sidebar_selected = i;
                }
                self.active_pane = Pane::Sidebar;
            },
            Some(SearchTarget::Chat(ci)) => {
                let items = self.flat_items();
                if let Some(i) = find_item(items.as_slice(), SidebarItem::Chat(ci)) {
                    self.sidebar_selected = i;
                }
                self.active_pane = Pane::Sidebar;
            },
            Some(SearchTarget::Message(mi)) => {
                if mi < self.message_count {
                    self.message_selected = mi;
                }
                self.active_pane = Pane::Messages;
            },
        }
        self.search_active = false;
    }

    /// Fold a presentation update into the state: teams and chats end the
    /// sidebar's loading; teams, chats and messages close a stale search; a
    /// sent message is confirmed in the status bar and reloads the open
    /// chat; the user's name is shown; a presence other than offline shows
    /// `Connected`, offline shows `Status: Offline`; an error ends both
    /// loadings and is shown as an error. Realtime events change nothing.
    pub fn handle_tui_update(&mut self, update: TuiUpdate) -> (r: UpdateEffect)
        ensures
            match update {
                TuiUpdate::Teams(teams) => *final(self) == (App {
                    sidebar_loading: false,
                    search_active: false,
                    team_channels: final(self).team_channels,
                    team_expanded: final(self).team_expanded,
                    ..*old(self)
                }) && final(self).team_channels@ == Seq::new(teams@.len(), |i: int| 0usize)
                    && final(self).team_expanded@ == Seq::new(teams@.len(), |i: int| false) && (r matches UpdateEffect::StoreTeams { teams: t, clamp_selection }
                    && t == teams && clamp_selection == (old(self).sidebar_selected == 0)),
                TuiUpdate::Chats(chats) => *final(self) == (App {
                    sidebar_loading: false,
                    search_active: false,
                    chat_count: chats@.len() as usize,
                    ..*old(self)
                }) && (r matches UpdateEffect::StoreChats(c) && c == chats),
                TuiUpdate::Messages(messages) => *final(self) == (App {
                    search_active: false,
                    message_count: messages@.len() as usize,
                    ..*old(self)
                }) && (r matches UpdateEffect::StoreMessages { header, messages: m } && header@
                    == old(self).channel_header@ && m == messages),
                TuiUpdate::MessageSent(_) => *final(self) == (App {
                    status_message: final(self).status_message,
                    status_is_error: false,
                    ..*old(self)
                }) && (final(self).status_message matches Some(m) && m@ == "Message sent"@) && (
                match old(self).current_chat_id {
                    Some(id) => r matches UpdateEffect::Send(
                        BackendCommand::LoadMessages { chat_id, limit },
                    ) && chat_id@ == id@ && limit == 50,
                    None => r is Nothing,
                }),
                TuiUpdate::User(user) => *final(self) == (App {
                    user_name: user.display_name,
                    ..*old(self)
                }) && r is Nothing,
                TuiUpdate::Presence(p) => *final(self) == (App {
                    is_online: !(p is Offline),
                    connection_state: final(self).connection_state,
                    ..*old(self)
                }) && (if p is Offline {
                    final(self).connection_state@ == "Status: "@ + label_spec(p)
                } else {
                    final(self).connection_state@ == "Connected"@
                }) && r is Nothing,
                TuiUpdate::Event(_) => *final(self) == *old(self) && r is Nothing,
                TuiUpdate::Error(msg) => *final(self) == (App {
                    sidebar_loading: false,
                    messages_loading: false,
                    status_message: Some(msg),
                    status_is_error: true,
                    ..*old(self)
                }) && r is Nothing,
            },
    {
        match update {
            TuiUpdate::Teams(teams) => {
                let (channels, expanded) = collapsed_teams(teams.len());
                self.team_channels = channels;
                self.team_expanded = expanded;
                self.sidebar_loading = false;
                self.close_stale_search();
                UpdateEffect::StoreTeams { teams, clamp_selection: self.sidebar_selected == 0 }
            },
            TuiUpdate::Chats(chats) => {
                self.chat_count = chats.len();
                self.sidebar_loading = false;
                self.close_stale_search();
                UpdateEffect::StoreChats(chats)
            },
            TuiUpdate::Messages(messages) => {
                let header = owned(self.channel_header.as_str());
                self.message_count = messages.len();
                self.close_stale_search();
                UpdateEffect::StoreMessages { header, messages }
            },
            TuiUpdate::MessageSent(_) => {
                self.status_message = Some(owned("Message sent"));
                self.status_is_error = false;
                match &self.current_chat_id {
                    Some(id) => UpdateEffect::Send(
                        BackendCommand::LoadMessages { chat_id: owned(id.as_str()), limit: MESSAGE_PAGE },
                    ),
                    None => UpdateEffect::Nothing,
                }
            },
            TuiUpdate::User(user) => {
                self.user_name = user.display_name;
                UpdateEffect::Nothing
            },
            TuiUpdate::Presence(presence) => {
                let is_online = !matches!(presence, Presence::Offline);
                self.is_online = is_online;
                self.connection_state = if is_online {
                    owned("Connected")
                } else {
                    let label = presence_label(&presence);
                    let mut v = chars_of("Status: ");
                    push_str(&mut v, label.as_str());
                    string_from_chars(&v)
                };
                UpdateEffect::Nothing
            },
            TuiUpdate::Event(_) => UpdateEffect::Nothing,
            TuiUpdate::Error(msg) => {
                self.sidebar_loading = false;
                self.messages_loading = false;
                self.set_error(msg);
                UpdateEffect::Nothing
            },
        }
    }
}

/// `n` teams, none expanded, with no channels listed yet.
fn collapsed_teams(n: usize) -> (r: (Vec<usize>, Vec<bool>))
    ensures
        r.0@ == Seq::new(n as nat, |i: int| 0usize),
        r.1@ == Seq::new(n as nat, |i: int| false),
{
    let mut channels: Vec<usize> = Vec::new();
    let mut expanded: Vec<bool> = Vec::new();
    let mut i: usize = 0;
    while i < n
        invariant
            i <= n,
            channels@ == Seq::new(i as nat, |j: int| 0usize),
            expanded@ == Seq::new(i as nat, |j: int| false),
        decreases n - i,
    {
        channels.push(0);
        expanded.push(false);
        i = i + 1;
        assert(channels@ =~= Seq::new(i as nat, |j: int| 0usize));
        assert(expanded@ =~= Seq::new(i as nat, |j: int| false));
    }
    (channels, expanded)
}

/// The first position of `target` in `items`.
fn find_item(items: &[SidebarItem], target: SidebarItem) -> (r: Option<usize>)
    ensures
        match first_index(items@, target) {
            Some(i) => r == Some(i as usize),
            None => r is None,
        },
{
    let mut i: usize = 0;
    assert(items@.skip(0) =~= items@);
    while i < items.len()
        invariant
            i <= items@.len(),
            forall|j: int| 0 <= j < i ==> items@[j] != target,
            first_index(items@, target) == match first_index(items@.skip(i as int), target) {
                Some(k) => Some(k + i),
                None => None,
            },
        decreases items@.len() - i,
    {
        if items[i] == target {
            assert(items@.skip(i as int)[0] == items@[i as int]);
            return Some(i);
        }
        assert(items@.skip(i as int).drop_first() =~= items@.skip(i + 1));
        i = i + 1;
    }
    None
}

} // verus!
