//! The console presentation of the domain models: the exact lines the
//! command-line client prints for chats, messages, presence, the user, teams,
//! realtime events and errors.

use vstd::prelude::*;
use crate::api::opt_view;
use crate::error::DomainError;
use crate::models::{Chat, Message, MessagePreview, Presence, RealtimeEvent, SentMessage, Team, User};
use crate::presence::{label_spec, presence_label};
use crate::text::{all_ws, chars_of, is_blank, lines_of, owned, push_chars_line, push_line, push_str,
    string_from_chars, trim, trim_spec};
use crate::time::{render_timestamp, timestamp_text};

verus! {

/// Renders domain models as the lines the command-line client prints. It has
/// no state; the caller writes the lines (errors to standard error).
#[derive(Debug, Clone, Copy)]
pub struct ConsolePresenter;

/// A rule of sixty dashes.
pub open spec fn rule_spec() -> Seq<char> {
    Seq::new(60, |i: int| '-')
}

pub(crate) fn rule() -> (r: String)
    ensures
        r@ == rule_spec(),
{
    let mut v: Vec<char> = Vec::new();
    let mut i: usize = 0;
    while i < 60
        invariant
            i <= 60,
            v@ == Seq::new(i as nat, |j: int| '-'),
        decreases 60 - i,
    {
        v.push('-');
        i = i + 1;
        assert(v@ =~= Seq::new(i as nat, |j: int| '-'));
    }
    string_from_chars(&v)
}

/// The lines of a chat's last message: its time (`  Last: {time}`) when it
/// has one, and, when its text is not blank, `  [{sender}]: {text}` with the
/// sender `?` when unknown and the text trimmed.
pub open spec fn last_message_lines(p: MessagePreview) -> Seq<Seq<char>> {
    (if timestamp_text(p.timestamp).len() > 0 {
        seq!["  Last: "@ + timestamp_text(p.timestamp)]
    } else {
        Seq::empty()
    }) + (if all_ws(p.text@) {
        Seq::empty()
    } else {
        seq![
            "  ["@ + (if p.sender@.len() == 0 {
                "?"@
            } else {
                p.sender@
            }) + "]: "@ + trim_spec(p.text@),
        ]
    })
}

/// The lines of one chat: its name, its id, its last message, and a blank
/// line.
pub open spec fn chat_lines_spec(c: Chat) -> Seq<Seq<char>> {
    seq![c.name@, "  ID: "@ + c.id.0@] + match c.last_message {
        Some(p) => last_message_lines(p),
        None => Seq::empty(),
    } + seq![Seq::<char>::empty()]
}

/// The lines of a sequence of chats, in order.
pub open spec fn chats_body(cs: Seq<Chat>) -> Seq<Seq<char>>
    decreases cs.len(),
{
    if cs.len() == 0 {
        Seq::empty()
    } else {
        chats_body(cs.drop_last()) + chat_lines_spec(cs.last())
    }
}

/// The chat list: a blank line, `Recent Chats:`, a rule, then the chats or
/// `  (no chats found)`.
pub open spec fn chats_spec(cs: Seq<Chat>) -> Seq<Seq<char>> {
    seq![Seq::<char>::empty(), "Recent Chats:"@, rule_spec()] + if cs.len() == 0 {
        seq!["  (no chats found)"@]
    } else {
        chats_body(cs)
    }
}

/// The lines of a chat hold, just before the closing blank line, the line
/// of its last message when that message has a non-blank text:
/// `  [{sender}]: {text}` with the sender as given (`?` only when it is
/// empty) and the text trimmed.
pub proof fn lemma_chat_names_its_sender(c: Chat)
    ensures
        (c.last_message matches Some(p) ==> (p.sender@.len() > 0 && !all_ws(p.text@) ==> ({
            let ls = chat_lines_spec(c);
            ls[ls.len() - 2] == "  ["@ + p.sender@ + "]: "@ + trim_spec(p.text@)
        }))),
        (c.last_message matches Some(p) ==> (p.sender@.len() == 0 && !all_ws(p.text@) ==> ({
            let ls = chat_lines_spec(c);
            ls[ls.len() - 2] == "  [?]: "@ + trim_spec(p.text@)
        }))),
{
    match c.last_message {
        Some(p) => {
            if !all_ws(p.text@) {
                reveal_strlit("  [?]: ");
                reveal_strlit("  [");
                reveal_strlit("?");
                reveal_strlit("]: ");
                assert("  [?]: "@ =~= "  ["@ + "?"@ + "]: "@);
                let ls = chat_lines_spec(c);
                let name = if p.sender@.len() == 0 { "?"@ } else { p.sender@ };
                let line = "  ["@ + name + "]: "@ + trim_spec(p.text@);
                let t = if timestamp_text(p.timestamp).len() > 0 {
                    seq!["  Last: "@ + timestamp_text(p.timestamp)]
                } else {
                    Seq::empty()
                };
                assert(last_message_lines(p) =~= t + seq![line]);
                let front = seq![c.name@, "  ID: "@ + c.id.0@] + t;
                assert(ls =~= front + seq![line] + seq![Seq::<char>::empty()]);
                assert(ls[ls.len() - 2] == line);
            }
        },
        None => {},
    }
}

/// Every line of a chat's lines appears among the lines of a list holding
/// that chat.
proof fn lemma_chats_body_holds(cs: Seq<Chat>, k: int, i: int)
    requires
        0 <= k < cs.len(),
        0 <= i < chat_lines_spec(cs[k]).len(),
    ensures
        chats_body(cs).contains(chat_lines_spec(cs[k])[i]),
    decreases cs.len(),
{
    let front = chats_body(cs.drop_last());
    let ls = chat_lines_spec(cs.last());
    assert(chats_body(cs) == front + ls);
    if k == cs.len() - 1 {
        assert((front + ls)[front.len() + i] == ls[i]);
    } else {
        assert(cs.drop_last()[k] == cs[k]);
        lemma_chats_body_holds(cs.drop_last(), k, i);
        let j = choose|j: int| 0 <= j < front.len() && front[j] == chat_lines_spec(cs[k])[i];
        assert((front + ls)[j] == front[j]);
    }
}

/// The chat list names the sender of each chat's last message: for every
/// chat whose last message has a non-blank text from a named sender, the
/// list holds `  [{sender}]: {text}` with the text trimmed.
pub proof fn lemma_chat_list_names_senders(cs: Seq<Chat>, k: int)
    requires
        0 <= k < cs.len(),
    ensures
        (cs[k].last_message matches Some(p) ==> (p.sender@.len() > 0 && !all_ws(p.text@)
            ==> chats_spec(cs).contains("  ["@ + p.sender@ + "]: "@ + trim_spec(p.text@)))),
{
    match cs[k].last_message {
        Some(p) => {
            if p.sender@.len() > 0 && !all_ws(p.text@) {
                let line = "  ["@ + p.sender@ + "]: "@ + trim_spec(p.text@);
                lemma_chat_names_its_sender(cs[k]);
                let ls = chat_lines_spec(cs[k]);
                lemma_chats_body_holds(cs, k, ls.len() - 2);
                let head = seq![Seq::<char>::empty(), "Recent Chats:"@, rule_spec()];
                let body = chats_body(cs);
                assert(chats_spec(cs) == head + body);
                let j = choose|j: int| 0 <= j < body.len() && body[j] == line;
                assert((head + body)[head.len() + j] == line);
            }
        },
        None => {},
    }
}

/// The line of one message: `[{time}] {sender}: {content}`.
pub open spec fn message_line_spec(m: Message) -> Seq<char> {
    "["@ + timestamp_text(m.timestamp) + "] "@ + m.sender@ + ": "@ + m.content@
}

/// The message list: one line per message, or `(no messages)`.
pub open spec fn messages_spec(ms: Seq<Message>) -> Seq<Seq<char>> {
    if ms.len() == 0 {
        seq!["(no messages)"@]
    } else {
        ms.map_values(|m: Message| message_line_spec(m))
    }
}

/// The lines of one team: `Team: {name} (0 channels)`, its trimmed
/// description when it is not blank, and a blank line.
pub open spec fn team_lines_spec(t: Team) -> Seq<Seq<char>> {
    seq!["Team: "@ + t.display_name@ + " (0 channels)"@] + match t.description {
        Some(d) => if all_ws(d@) {
            Seq::empty()
        } else {
            seq!["  "@ + trim_spec(d@)]
        },
        None => Seq::empty(),
    } + seq![Seq::<char>::empty()]
}

/// The lines of a sequence of teams, in order.
pub open spec fn teams_body(ts: Seq<Team>) -> Seq<Seq<char>>
    decreases ts.len(),
{
    if ts.len() == 0 {
        Seq::empty()
    } else {
        teams_body(ts.drop_last()) + team_lines_spec(ts.last())
    }
}

/// The team list: a blank line, `Teams and Channels:`, a rule, then the
/// teams or `  (no teams found)`.
pub open spec fn teams_spec(ts: Seq<Team>) -> Seq<Seq<char>> {
    seq![Seq::<char>::empty(), "Teams and Channels:"@, rule_spec()] + if ts.len() == 0 {
        seq!["  (no teams found)"@]
    } else {
        teams_body(ts)
    }
}

/// The line of a realtime event.
pub open spec fn event_line_spec(e: RealtimeEvent) -> Seq<char> {
    match e {
        RealtimeEvent::MessageReceived { chat_id, message } => "["@ + timestamp_text(
            message.timestamp,
        ) + "] "@ + message.sender@ + " in "@ + chat_id.0@ + ": "@ + message.content@,
        RealtimeEvent::PresenceChanged { user_id, presence } => "Presence: "@ + user_id@
            + " is now "@ + label_spec(presence),
        RealtimeEvent::CallInfo(info) => "Call: "@ + info@,
        RealtimeEvent::Unknown(raw) => "Event: "@ + raw@,
    }
}

impl ConsolePresenter {
    /// Construct a `ConsolePresenter`.
    pub fn new() -> (r: Self) {
        ConsolePresenter
    }

    /// The chat list (see [`chats_spec`]).
    pub fn show_chats(&self, chats: &[Chat]) -> (r: Vec<String>)
        ensures
            lines_of(r@) == chats_spec(chats@),
    {
        let mut out: Vec<String> = Vec::new();
        push_line(&mut out, String::new());
        push_line(&mut out, owned("Recent Chats:"));
        push_line(&mut out, rule());
        let ghost head = lines_of(out@);
        if chats.len() == 0 {
            push_line(&mut out, owned("  (no chats found)"));
            assert(lines_of(out@) =~= chats_spec(chats@));
            return out;
        }
        let mut i: usize = 0;
        assert(chats_body(chats@.take(0)) =~= Seq::<Seq<char>>::empty());
        assert(lines_of(out@) =~= head + chats_body(chats@.take(0)));
        while i < chats.len()
            invariant
                i <= chats@.len(),
                lines_of(out@) == head + chats_body(chats@.take(i as int)),
            decreases chats@.len() - i,
        {
            let ghost before = lines_of(out@);
            let c = &chats[i];
            push_line(&mut out, owned(c.name.as_str()));
            let mut idv = chars_of("  ID: ");
            push_str(&mut idv, c.id.0.as_str());
            push_chars_line(&mut out, &idv);
            if let Some(preview) = &c.last_message {
                let time = render_timestamp(&preview.timestamp);
                if !time.as_str().is_empty() {
                    let mut tv = chars_of("  Last: ");
                    push_str(&mut tv, time.as_str());
                    push_chars_line(&mut out, &tv);
                }
                if !is_blank(preview.text.as_str()) {
                    let mut pv = chars_of("  [");
                    if preview.sender.as_str().is_empty() {
                        push_str(&mut pv, "?");
                    } else {
                        push_str(&mut pv, preview.sender.as_str());
                    }
                    push_str(&mut pv, "]: ");
                    let t = trim(preview.text.as_str());
                    push_str(&mut pv, t.as_str());
                    push_chars_line(&mut out, &pv);
                }
            }
            push_line(&mut out, String::new());
            assert(lines_of(out@) =~= before + chat_lines_spec(chats@[i as int]));
            assert(chats@.take(i + 1).drop_last() =~= chats@.take(i as int));
            i = i + 1;
            assert(lines_of(out@) =~= head + chats_body(chats@.take(i as int)));
        }
        assert(chats@.take(i as int) =~= chats@);
        assert(lines_of(out@) =~= chats_spec(chats@));
        out
    }

    /// The message list (see [`messages_spec`]).
    pub fn show_messages(&self, messages: &[Message]) -> (r: Vec<String>)
        ensures
            lines_of(r@) == messages_spec(messages@),
    {
        let mut out: Vec<String> = Vec::new();
        if messages.len() == 0 {
            push_line(&mut out, owned("(no messages)"));
            assert(lines_of(out@) =~= messages_spec(messages@));
            return out;
        }
        let mut i: usize = 0;
        while i < messages.len()
            invariant
                i <= messages@.len(),
                lines_of(out@) == messages@.take(i as int).map_values(
                    |m: Message| message_line_spec(m),
                ),
            decreases messages@.len() - i,
        {
            let m = &messages[i];
            let mut v = chars_of("[");
            let time = render_timestamp(&m.timestamp);
            push_str(&mut v, time.as_str());
            push_str(&mut v, "] ");
            push_str(&mut v, m.sender.as_str());
            push_str(&mut v, ": ");
            push_str(&mut v, m.content.as_str());
            push_chars_line(&mut out, &v);
            i = i + 1;
            assert(lines_of(out@) =~= messages@.take(i as int).map_values(
                |m: Message| message_line_spec(m),
            ));
        }
        assert(messages@.take(i as int) =~= messages@);
        out
    }

    /// The confirmation of a sent message: `Message sent.`.
    pub fn message_sent(&self, sent: &SentMessage) -> (r: Vec<String>)
        ensures
            lines_of(r@) == seq!["Message sent."@],
    {
        let mut out: Vec<String> = Vec::new();
        push_line(&mut out, owned("Message sent."));
        out
    }

    /// The presence report: a blank line, `Presence Status:`, then the label
    /// as both availability and activity.
    pub fn show_presence(&self, presence: &Presence) -> (r: Vec<String>)
        ensures
            lines_of(r@) == seq![
                Seq::<char>::empty(),
                "Presence Status:"@,
                "  Availability: "@ + label_spec(*presence),
                "  Activity: "@ + label_spec(*presence),
            ],
    {
        let label = presence_label(presence);
        let mut out: Vec<String> = Vec::new();
        push_line(&mut out, String::new());
        push_line(&mut out, owned("Presence Status:"));
        let mut a = chars_of("  Availability: ");
        push_str(&mut a, label.as_str());
        push_chars_line(&mut out, &a);
        let mut b = chars_of("  Activity: ");
        push_str(&mut b, label.as_str());
        push_chars_line(&mut out, &b);
        out
    }

    /// The user report: a blank line, the display name, the mail (`(none)`
    /// when unknown) and the id.
    pub fn show_user(&self, user: &User) -> (r: Vec<String>)
        ensures
            lines_of(r@) == seq![
                Seq::<char>::empty(),
                "Display Name: "@ + user.display_name@,
                "Mail:         "@ + (match opt_view(user.email) {
                    Some(m) => m,
                    None => "(none)"@,
                }),
                "ID:           "@ + user.id@,
            ],
    {
        let mut out: Vec<String> = Vec::new();
        push_line(&mut out, String::new());
        let mut a = chars_of("Display Name: ");
        push_str(&mut a, user.display_name.as_str());
        push_chars_line(&mut out, &a);
        let mut b = chars_of("Mail:         ");
        match &user.email {
            Some(m) => push_str(&mut b, m.as_str()),
            None => push_str(&mut b, "(none)"),
        }
        push_chars_line(&mut out, &b);
        let mut c = chars_of("ID:           ");
        push_str(&mut c, user.id.as_str());
        push_chars_line(&mut out, &c);
        out
    }

    /// The team list (see [`teams_spec`]).
    pub fn show_teams(&self, teams: &[Team]) -> (r: Vec<String>)
        ensures
            lines_of(r@) == teams_spec(teams@),
    {
        let mut out: Vec<String> = Vec::new();
        push_line(&mut out, String::new());
        push_line(&mut out, owned("Teams and Channels:"));
        push_line(&mut out, rule());
        let ghost head = lines_of(out@);
        if teams.len() == 0 {
            push_line(&mut out, owned("  (no teams found)"));
            assert(lines_of(out@) =~= teams_spec(teams@));
            return out;
        }
        let mut i: usize = 0;
        assert(teams_body(teams@.take(0)) =~= Seq::<Seq<char>>::empty());
        assert(lines_of(out@) =~= head + teams_body(teams@.take(0)));
        while i < teams.len()
            invariant
                i <= teams@.len(),
                lines_of(out@) == head + teams_body(teams@.take(i as int)),
            decreases teams@.len() - i,
        {
            let ghost before = lines_of(out@);
            let t = &teams[i];
            let mut v = chars_of("Team: ");
            push_str(&mut v, t.display_name.as_str());
            push_str(&mut v, " (0 channels)");
            push_chars_line(&mut out, &v);
            if let Some(desc) = &t.description {
                if !is_blank(desc.as_str()) {
                    let mut d = chars_of("  ");
                    let trimmed = trim(desc.as_str());
                    push_str(&mut d, trimmed.as_str());
                    push_chars_line(&mut out, &d);
                }
            }
            push_line(&mut out, String::new());
            assert(lines_of(out@) =~= before + team_lines_spec(teams@[i as int]));
            assert(teams@.take(i + 1).drop_last() =~= teams@.take(i as int));
            i = i + 1;
            assert(lines_of(out@) =~= head + teams_body(teams@.take(i as int)));
        }
        assert(teams@.take(i as int) =~= teams@);
        assert(lines_of(out@) =~= teams_spec(teams@));
        out
    }

    /// The line of a realtime event (see [`event_line_spec`]).
    pub fn notify_event(&self, event: &RealtimeEvent) -> (r: String)
        ensures
            r@ == event_line_spec(*event),
    {
        let mut v: Vec<char> = Vec::new();
        match event {
            RealtimeEvent::MessageReceived { chat_id, message } => {
                push_str(&mut v, "[");
                let time = render_timestamp(&message.timestamp);
                push_str(&mut v, time.as_str());
                push_str(&mut v, "] ");
                push_str(&mut v, message.sender.as_str());
                push_str(&mut v, " in ");
                push_str(&mut v, chat_id.0.as_str());
                push_str(&mut v, ": ");
                push_str(&mut v, message.content.as_str());
            },
            RealtimeEvent::PresenceChanged { user_id, presence } => {
                push_str(&mut v, "Presence: ");
                push_str(&mut v, user_id.as_str());
                push_str(&mut v, " is now ");
                let label = presence_label(presence);
                push_str(&mut v, label.as_str());
            },
            RealtimeEvent::CallInfo(info) => {
                push_str(&mut v, "Call: ");
                push_str(&mut v, info.as_str());
            },
            RealtimeEvent::Unknown(raw) => {
                push_str(&mut v, "Event: ");
                push_str(&mut v, raw.as_str());
            },
        }
        string_from_chars(&v)
    }

    /// The line of an error, for standard error: `Error: {error}`.
    pub fn show_error(&self, error: &DomainError) -> (r: String)
        ensures
            r@ == "Error: "@ + error.spec_display(),
    {
        let shown = error.to_string();
        let mut v = chars_of("Error: ");
        push_str(&mut v, shown.as_str());
        string_from_chars(&v)
    }
}

} // verus!
