//! The Trouter push channel: socket.io frames read as domain events, the
//! lines the listener prints for them, and the reconnect decisions of the
//! listener.

use vstd::prelude::*;
use crate::error::DomainError;
use crate::http::InfraError;
use crate::json::{json_get, json_parse, parse_json, str_member, Json};
use crate::models::{ChatId, Message, RealtimeEvent};
use crate::rules::{contains, contains_spec, find, find_spec, lemma_find_from_found, matches_at,
    starts_with};
use crate::text::{all_ws, chars_of, is_blank, owned, push_seq, push_str, string_from_chars};
use crate::token::StoredToken;

verus! {

/// Registrar time-to-live of the endpoint registration, in seconds.
pub const REGISTRAR_TTL_SECS: u64 = 86400;

/// Interval between heartbeats sent to the server, in seconds.
pub const HEARTBEAT_SECS: u64 = 30;

/// Re-registration happens this long after the previous one: 30 seconds
/// before the registration expires.
pub const RE_REGISTER_SECS: u64 = REGISTRAR_TTL_SECS - 30;

/// A session is closed and renewed after this many seconds.
pub const SESSION_MAX_AGE_SECS: u64 = 3600;

/// A session that lasted at least this many seconds counts as stable.
pub const STABLE_SESSION_SECS: u64 = 60;

/// The adapter that reads domain events from the Trouter WebSocket. It holds
/// no connection: each subscription opens its own session.
#[derive(Debug, Clone, Copy)]
pub struct TungsteniteRealtime {
    _private: (),
}

impl TungsteniteRealtime {
    /// Build the adapter; no I/O happens until a subscription.
    pub fn new() -> (r: Self) {
        TungsteniteRealtime { _private: () }
    }
}

/// Classify a failure of the Trouter stack: negotiation and connection
/// failures are transport-level; the message is kept whole.
pub fn map_err(err: InfraError) -> (e: DomainError)
    ensures
        e matches DomainError::Transport(m) && m@ == err.message@,
{
    DomainError::Transport(err.message)
}

/// The Skype token a Trouter session is opened with, if it is usable at
/// `now`: a missing token is `Unauthenticated`, an expired one
/// `TokenExpired`.
pub fn session_token(token: &Option<StoredToken>, now: u64) -> (r: Result<String, DomainError>)
    ensures
        match *token {
            None => r matches Err(e) && e matches DomainError::Unauthenticated(m) && m@
                == "no skype token found. Run `teams-cli login` first."@,
            Some(t) => if t.expired_at(now as int) {
                r matches Err(e) && e matches DomainError::TokenExpired(m) && m@
                    == "skype token expired. Run `teams-cli login` to refresh."@
            } else {
                r matches Ok(s) && s@ == t.token@
            },
        },
{
    match token {
        None => Err(
            DomainError::Unauthenticated(owned("no skype token found. Run `teams-cli login` first.")),
        ),
        Some(t) => {
            if t.is_expired_at(now) {
                Err(
                    DomainError::TokenExpired(
                        owned("skype token expired. Run `teams-cli login` to refresh."),
                    ),
                )
            } else {
                Ok(owned(t.token.as_str()))
            }
        },
    }
}

/// The Skype token the `trouter` listener opens a session with, if it is
/// usable at `now`; otherwise the message the listener reports: a missing
/// token gives `No skype token found. Run `teams-cli login` first.`, an
/// expired one `Skype token expired. Run `teams-cli login` to refresh.`.
pub fn listener_token(token: &Option<StoredToken>, now: u64) -> (r: Result<String, String>)
    ensures
        match *token {
            None => r matches Err(m) && m@ == "No skype token found. Run `teams-cli login` first."@,
            Some(t) => if t.expired_at(now as int) {
                r matches Err(m) && m@ == "Skype token expired. Run `teams-cli login` to refresh."@
            } else {
                r matches Ok(s) && s@ == t.token@
            },
        },
{
    match token {
        None => Err(owned("No skype token found. Run `teams-cli login` first.")),
        Some(t) => {
            if t.is_expired_at(now) {
                Err(owned("Skype token expired. Run `teams-cli login` to refresh."))
            } else {
                Ok(owned(t.token.as_str()))
            }
        },
    }
}

/// The JSON payload of a socket.io event frame `5:ACK_ID:ENDPOINT:JSON`: what
/// follows the first `::` after the `5:`, when it starts with `{`.
pub open spec fn event_payload_spec(f: Seq<char>) -> Option<Seq<char>> {
    let after = f.skip(2);
    match find_spec(after, "::"@) {
        Some(p) => {
            let rest = after.skip(p + 2);
            if starts_with(rest, "{"@) {
                Some(rest)
            } else {
                None
            }
        },
        None => None,
    }
}

/// A domain event as text: what a [`RealtimeEvent`] carries.
pub enum EventView {
    /// A chat message without a timestamp.
    MessageReceived { chat_id: Seq<char>, sender: Seq<char>, content: Seq<char> },
    CallInfo(Seq<char>),
    Unknown(Seq<char>),
}

/// `e` is the event `v`.
pub open spec fn event_is(e: RealtimeEvent, v: EventView) -> bool {
    match v {
        EventView::MessageReceived { chat_id, sender, content } => e matches RealtimeEvent::MessageReceived {
            chat_id: c,
            message: m,
        } && c.0@ == chat_id && m.sender@ == sender && m.content@ == content && m.timestamp is None,
        EventView::CallInfo(p) => e matches RealtimeEvent::CallInfo(s) && s@ == p,
        EventView::Unknown(p) => e matches RealtimeEvent::Unknown(s) && s@ == p,
    }
}

/// The resource of a notification: `body.resource`, else `resource`, else
/// the whole document.
pub open spec fn resource_of(doc: Json) -> Json {
    let nested = match json_get(doc, "body"@) {
        Some(b) => json_get(b, "resource"@),
        None => None,
    };
    match nested {
        Some(r) => r,
        None => match json_get(doc, "resource"@) {
            Some(r) => r,
            None => doc,
        },
    }
}

/// `a`, or `b` when `a` is absent.
pub open spec fn either(a: Option<Seq<char>>, b: Option<Seq<char>>) -> Option<Seq<char>> {
    match a {
        Some(x) => Some(x),
        None => b,
    }
}

/// The event of a notification payload: a JSON document whose resource
/// names a conversation (`to`, else `conversationId`, else
/// `conversationLink`) that is not blank and carries text (`content`, else
/// `body`) is a message from `imdisplayname` (else `from`, else nobody);
/// anything else is unknown, carrying the payload.
pub open spec fn payload_event_spec(p: Seq<char>) -> EventView {
    match json_parse(p) {
        None => EventView::Unknown(p),
        Some(doc) => document_event_spec(doc, p),
    }
}

/// The event of a notification document read from the payload `p`: a
/// resource that names a conversation (`to`, else `conversationId`, else
/// `conversationLink`) that is not blank and carries text (`content`, else
/// `body`) is a message from `imdisplayname` (else `from`, else nobody);
/// anything else is unknown, carrying the payload.
pub open spec fn document_event_spec(doc: Json, p: Seq<char>) -> EventView {
    let r = resource_of(doc);
    let chat = either(
        str_member(r, "to"@),
        either(str_member(r, "conversationId"@), str_member(r, "conversationLink"@)),
    );
    let text = either(str_member(r, "content"@), str_member(r, "body"@));
    if chat is Some && text is Some && !all_ws(chat->0) {
        EventView::MessageReceived {
            chat_id: chat->0,
            sender: match either(str_member(r, "imdisplayname"@), str_member(r, "from"@)) {
                Some(s) => s,
                None => Seq::empty(),
            },
            content: text->0,
        }
    } else {
        EventView::Unknown(p)
    }
}

/// The resource of a notification is `body.resource` when there is one,
/// else `resource`, else the whole document.
pub proof fn lemma_resource_choice(doc: Json)
    ensures
        (json_get(doc, "body"@) matches Some(b) ==> (json_get(b, "resource"@) matches Some(r)
            ==> resource_of(doc) == r)),
        (json_get(doc, "body"@) matches Some(b) ==> (json_get(b, "resource"@) is None ==> (json_get(
            doc,
            "resource"@,
        ) matches Some(r) ==> resource_of(doc) == r))),
        (json_get(doc, "body"@) is None ==> (json_get(doc, "resource"@) matches Some(r)
            ==> resource_of(doc) == r)),
        (json_get(doc, "resource"@) is None ==> (json_get(doc, "body"@) matches Some(b) ==> (
        json_get(b, "resource"@) is None ==> resource_of(doc) == doc))),
        json_get(doc, "resource"@) is None && json_get(doc, "body"@) is None ==> resource_of(doc)
            == doc,
{
}

/// A notification is a message exactly when its resource names a
/// conversation that is not blank and carries text; the conversation is the
/// first string among `to`, `conversationId` and `conversationLink`, and the
/// text is `content` when that is a string, else `body`. Anything else is
/// unknown and carries the payload unchanged.
pub proof fn lemma_message_fields(doc: Json, p: Seq<char>)
    ensures
        ({
            let r = resource_of(doc);
            let to = str_member(r, "to"@);
            let cid = str_member(r, "conversationId"@);
            let link = str_member(r, "conversationLink"@);
            let content = str_member(r, "content"@);
            let body = str_member(r, "body"@);
            match document_event_spec(doc, p) {
                EventView::MessageReceived { chat_id, content: text, .. } => {
                    &&& !all_ws(chat_id)
                    &&& (to matches Some(t) ==> chat_id == t)
                    &&& (to is None ==> (cid matches Some(t) ==> chat_id == t))
                    &&& (to is None && cid is None ==> link == Some(chat_id))
                    &&& (content matches Some(t) ==> text == t)
                    &&& (content is None ==> body == Some(text))
                },
                EventView::Unknown(q) => {
                    &&& q == p
                    &&& (to matches Some(t) ==> ((content is Some || body is Some) ==> all_ws(t)))
                    &&& (to is None ==> (cid matches Some(t) ==> ((content is Some || body is Some)
                        ==> all_ws(t))))
                    &&& (to is None && cid is None ==> (link matches Some(t) ==> ((content is Some
                        || body is Some) ==> all_ws(t))))
                },
                EventView::CallInfo(_) => false,
            }
        }),
{
}

/// The sender of a message is the resource's `imdisplayname` whenever that
/// is a string, whatever else the resource holds (such as `from`); `from`
/// names the sender only when `imdisplayname` is absent or not a string,
/// and with neither the sender is empty.
pub proof fn lemma_sender_prefers_display_name(doc: Json, p: Seq<char>)
    ensures
        (document_event_spec(doc, p) matches EventView::MessageReceived { sender, .. } ==> match str_member(
            resource_of(doc),
            "imdisplayname"@,
        ) {
            Some(n) => sender == n,
            None => match str_member(resource_of(doc), "from"@) {
                Some(f) => sender == f,
                None => sender.len() == 0,
            },
        }),
{
}

/// The event of a frame: none for handshake (`1::`), heartbeat (`2::`) and
/// ack (`6:`) frames; for an event frame (`5:`) with a JSON payload, call
/// information when the frame mentions `SkypeSpacesWeb`, else the payload's
/// event; any other frame is unknown, carrying the frame.
pub open spec fn frame_event_spec(f: Seq<char>) -> Option<EventView> {
    if starts_with(f, "1::"@) || starts_with(f, "2::"@) || starts_with(f, "6:"@) {
        None
    } else if starts_with(f, "5:"@) {
        match event_payload_spec(f) {
            Some(p) => if contains_spec(f, "SkypeSpacesWeb"@) {
                Some(EventView::CallInfo(p))
            } else {
                Some(payload_event_spec(p))
            },
            None => Some(EventView::Unknown(f)),
        }
    } else {
        Some(EventView::Unknown(f))
    }
}

/// No delivery is silently dropped: a frame yields no event exactly when it
/// is protocol chatter (handshake, heartbeat or ack).
pub proof fn lemma_only_chatter_is_dropped(f: Seq<char>)
    ensures
        frame_event_spec(f) is None <==> (starts_with(f, "1::"@) || starts_with(f, "2::"@)
            || starts_with(f, "6:"@)),
{
}

/// Whether `cs` starts with `pat`.
fn has_prefix(cs: &Vec<char>, pat: &str) -> (r: bool)
    ensures
        r == starts_with(cs@, pat@),
{
    let p = chars_of(pat);
    assert(cs@.skip(0) =~= cs@);
    matches_at(cs, 0, &p)
}

/// The characters of `cs` from position `k` on.
fn tail_from(cs: &Vec<char>, k: usize) -> (r: Vec<char>)
    requires
        k <= cs@.len(),
    ensures
        r@ == cs@.skip(k as int),
{
    let mut out: Vec<char> = Vec::new();
    let mut i: usize = k;
    while i < cs.len()
        invariant
            k <= i <= cs@.len(),
            out@ == cs@.subrange(k as int, i as int),
        decreases cs@.len() - i,
    {
        out.push(cs[i]);
        i = i + 1;
        assert(out@ =~= cs@.subrange(k as int, i as int));
    }
    assert(cs@.subrange(k as int, cs@.len() as int) =~= cs@.skip(k as int));
    out
}

/// The JSON payload of an event frame (see [`event_payload_spec`]).
fn event_payload(cs: &Vec<char>) -> (r: Option<Vec<char>>)
    requires
        starts_with(cs@, "5:"@),
    ensures
        match event_payload_spec(cs@) {
            Some(p) => r matches Some(v) && v@ == p,
            None => r is None,
        },
{
    proof {
        reveal_strlit("5:");
    }
    let after = tail_from(cs, 2);
    let sep = chars_of("::");
    match find(&after, &sep) {
        Some(p) => {
            proof {
                reveal_strlit("::");
                lemma_find_from_found(after@, "::"@, 0);
                assert(find_spec(after@, "::"@) == Some(p as int));
                assert(starts_with(after@.skip(p as int), "::"@));
                assert("::"@.len() == 2);
            }
            let rest = tail_from(&after, p + 2);
            if has_prefix(&rest, "{") {
                Some(rest)
            } else {
                None
            }
        },
        None => None,
    }
}

/// The text of the first string member among `keys` of `r`, as a copy.
fn member_text(r: &Json, key: &str) -> (t: Option<String>)
    ensures
        match str_member(*r, key@) {
            Some(s) => t matches Some(x) && x@ == s,
            None => t is None,
        },
{
    match r.str_member(key) {
        Some(s) => Some(owned(s)),
        None => None,
    }
}

/// The resource of a notification document (see [`resource_of`]).
fn resource(doc: &Json) -> (r: &Json)
    ensures
        *r == resource_of(*doc),
{
    let nested = match doc.get("body") {
        Some(b) => b.get("resource"),
        None => None,
    };
    match nested {
        Some(r) => r,
        None => match doc.get("resource") {
            Some(r) => r,
            None => doc,
        },
    }
}

/// Best-effort reading of an event payload as a domain event (see
/// [`payload_event_spec`]): a payload that is not JSON is unknown.
pub fn event_from_payload(payload: &str) -> (e: RealtimeEvent)
    ensures
        event_is(e, payload_event_spec(payload@)),
{
    match parse_json(payload) {
        Some(doc) => event_from_document(&doc, payload),
        None => RealtimeEvent::Unknown(owned(payload)),
    }
}

/// The domain event of a notification document read from `payload` (see
/// [`document_event_spec`]).
pub fn event_from_document(doc: &Json, payload: &str) -> (e: RealtimeEvent)
    ensures
        event_is(e, document_event_spec(*doc, payload@)),
{
    let r = resource(doc);
    let chat = match member_text(r, "to") {
        Some(c) => Some(c),
        None => match member_text(r, "conversationId") {
            Some(c) => Some(c),
            None => member_text(r, "conversationLink"),
        },
    };
    let text = match member_text(r, "content") {
        Some(t) => Some(t),
        None => member_text(r, "body"),
    };
    match (chat, text) {
        (Some(chat), Some(text)) => {
            if is_blank(chat.as_str()) {
                RealtimeEvent::Unknown(owned(payload))
            } else {
                let sender = match member_text(r, "imdisplayname") {
                    Some(s) => s,
                    None => match member_text(r, "from") {
                        Some(s) => s,
                        None => String::new(),
                    },
                };
                RealtimeEvent::MessageReceived {
                    chat_id: ChatId(chat),
                    message: Message { sender, timestamp: None, content: text },
                }
            }
        },
        _ => RealtimeEvent::Unknown(owned(payload)),
    }
}

/// Read one incoming socket.io text frame as a domain event, or none
/// for protocol chatter (see [`frame_event_spec`]).
pub fn frame_to_event(frame: &str) -> (r: Option<RealtimeEvent>)
    ensures
        match frame_event_spec(frame@) {
            Some(v) => r matches Some(e) && event_is(e, v),
            None => r is None,
        },
{
    let cs = chars_of(frame);
    if has_prefix(&cs, "1::") || has_prefix(&cs, "2::") || has_prefix(&cs, "6:") {
        return None;
    }
    if has_prefix(&cs, "5:") {
        return match event_payload(&cs) {
            Some(p) => {
                let payload = string_from_chars(&p);
                if contains(frame, "SkypeSpacesWeb") {
                    Some(RealtimeEvent::CallInfo(payload))
                } else {
                    Some(event_from_payload(payload.as_str()))
                }
            },
            None => Some(RealtimeEvent::Unknown(owned(frame))),
        };
    }
    Some(RealtimeEvent::Unknown(owned(frame)))
}

/// The line the listener prints for a frame: nothing for a heartbeat
/// (`2::`); for an event frame (`5:`) with a JSON payload, `[CALL-INFO]
/// Event: {payload}` when the frame mentions `SkypeSpacesWeb`, else `[MSG]
/// Event: {payload}`; for an ack frame (`6:`) holding `:::{`, `Ack:
/// {json}`, else `Ack frame: {frame}`; any other frame as `Frame: {frame}`.
pub open spec fn frame_line_spec(f: Seq<char>) -> Option<Seq<char>> {
    if starts_with(f, "2::"@) {
        None
    } else if starts_with(f, "5:"@) {
        match event_payload_spec(f) {
            Some(p) => Some(
                (if contains_spec(f, "SkypeSpacesWeb"@) {
                    "[CALL-INFO]"@
                } else {
                    "[MSG]"@
                }) + " Event: "@ + p,
            ),
            None => Some("Frame: "@ + f),
        }
    } else if starts_with(f, "6:"@) {
        match find_spec(f, ":::{"@) {
            Some(i) => Some("Ack: "@ + f.skip(i + 3)),
            None => Some("Ack frame: "@ + f),
        }
    } else {
        Some("Frame: "@ + f)
    }
}

/// The line the listener prints for an incoming frame (see
/// [`frame_line_spec`]).
pub fn frame_line(frame: &str) -> (r: Option<String>)
    ensures
        match frame_line_spec(frame@) {
            Some(l) => r matches Some(x) && x@ == l,
            None => r is None,
        },
{
    let cs = chars_of(frame);
    if has_prefix(&cs, "2::") {
        return None;
    }
    if has_prefix(&cs, "5:") {
        let mut v = match event_payload(&cs) {
            Some(p) => {
                let mut v = if contains(frame, "SkypeSpacesWeb") {
                    chars_of("[CALL-INFO]")
                } else {
                    chars_of("[MSG]")
                };
                push_str(&mut v, " Event: ");
                push_seq(&mut v, &p);
                v
            },
            None => {
                let mut v = chars_of("Frame: ");
                push_seq(&mut v, &cs);
                v
            },
        };
        return Some(string_from_chars(&v));
    }
    if has_prefix(&cs, "6:") {
        let pat = chars_of(":::{");
        let found = find(&cs, &pat);
        let v = match found {
            Some(i) => {
                proof {
                    reveal_strlit(":::{");
                    lemma_find_from_found(cs@, pat@, 0);
                    assert(pat@ == ":::{"@);
                    assert(find_spec(cs@, pat@) is Some);
                    assert(cs@.len() == cs.len());
                    assert(find_spec(cs@, pat@) == Some(i as int));
                    assert(starts_with(cs@.skip(i as int), ":::{"@));
                    assert(":::{"@.len() == 4);
                }
                let mut v = chars_of("Ack: ");
                let json = tail_from(&cs, i + 3);
                push_seq(&mut v, &json);
                v
            },
            None => {
                let mut v = chars_of("Ack frame: ");
                push_seq(&mut v, &cs);
                v
            },
        };
        return Some(string_from_chars(&v));
    }
    let mut v = chars_of("Frame: ");
    push_seq(&mut v, &cs);
    Some(string_from_chars(&v))
}

/// How a listener session ended.
#[derive(Debug, Clone, Copy, PartialEq, Eq)]
pub enum SessionEnd {
    /// The user asked to stop.
    Shutdown,
    /// The connection dropped after a stable session.
    StableDrop,
    /// The connection dropped, or never came up, before the session was stable.
    Drop,
}

/// Classify the end of a session that ran for `elapsed_secs`: a shutdown
/// stays a shutdown; a drop after [`STABLE_SESSION_SECS`] or more is a
/// stable drop.
pub fn session_end(shutdown: bool, elapsed_secs: u64) -> (r: SessionEnd)
    ensures
        shutdown ==> r == SessionEnd::Shutdown,
        !shutdown && elapsed_secs >= STABLE_SESSION_SECS ==> r == SessionEnd::StableDrop,
        !shutdown && elapsed_secs < STABLE_SESSION_SECS ==> r == SessionEnd::Drop,
{
    if shutdown {
        SessionEnd::Shutdown
    } else if elapsed_secs >= STABLE_SESSION_SECS {
        SessionEnd::StableDrop
    } else {
        SessionEnd::Drop
    }
}

/// The longest wait of the listener before reconnecting, in seconds.
pub const MAX_LISTENER_BACKOFF_SECS: u64 = 64;

/// The reconnect backoff of the listener: 1s after a stable session,
/// otherwise doubling from 1s up to 64s.
#[derive(Debug, Clone, Copy)]
pub struct ListenerBackoff {
    pub next_secs: u64,
}

/// The wait after `next`: doubled, held at 64.
pub open spec fn doubled_wait(next: int) -> int {
    if 2 * next < 64 {
        2 * next
    } else {
        64
    }
}

impl ListenerBackoff {
    /// The next wait lies within `[1s, 64s]`.
    pub open spec fn wf(&self) -> bool {
        1 <= self.next_secs <= MAX_LISTENER_BACKOFF_SECS
    }

    /// A fresh backoff: the first wait is 1s.
    pub fn new() -> (r: Self)
        ensures
            r.wf(),
            r.next_secs == 1,
    {
        ListenerBackoff { next_secs: 1 }
    }

    /// Decide, at the end of a session, how long to wait before reconnecting:
    /// never after a shutdown (none), 1s after a stable session (and the
    /// backoff starts over), otherwise the current wait, which then doubles
    /// up to 64s.
    pub fn on_session_end(&mut self, end: SessionEnd) -> (r: Option<u64>)
        requires
            old(self).wf(),
        ensures
            final(self).wf(),
            end == SessionEnd::Shutdown ==> r is None && final(self).next_secs == old(
                self,
            ).next_secs,
            end == SessionEnd::StableDrop ==> r == Some(1u64) && final(self).next_secs == 1,
            end == SessionEnd::Drop ==> r == Some(old(self).next_secs) && final(self).next_secs
                == doubled_wait(old(self).next_secs as int),
    {
        match end {
            SessionEnd::Shutdown => None,
            SessionEnd::StableDrop => {
                self.next_secs = 1;
                Some(1)
            },
            SessionEnd::Drop => {
                let wait = self.next_secs;
                self.next_secs = if wait < 32 {
                    wait * 2
                } else {
                    MAX_LISTENER_BACKOFF_SECS
                };
                Some(wait)
            },
        }
    }
}

/// The wait before the next reconnect after `k` more drops, starting from
/// the wait `next`.
pub open spec fn wait_after_drops(next: int, k: nat) -> int
    decreases k,
{
    if k == 0 {
        next
    } else {
        wait_after_drops(doubled_wait(next), (k - 1) as nat)
    }
}

/// `min(2^k, 64)`.
pub open spec fn capped_power(k: nat) -> int {
    if crate::realtime::doubling(k) < 64 {
        crate::realtime::doubling(k) as int
    } else {
        64
    }
}

proof fn lemma_wait_after_drops_from(j: nat, k: nat)
    ensures
        wait_after_drops(capped_power(j), k) == capped_power(j + k),
    decreases k,
{
    if k > 0 {
        assert(crate::realtime::doubling(j + 1) == 2 * crate::realtime::doubling(j));
        assert(doubled_wait(capped_power(j)) == capped_power(j + 1));
        lemma_wait_after_drops_from(j + 1, (k - 1) as nat);
        assert(j + 1 + (k - 1) == j + k);
    }
}

/// From a fresh start, the listener waits 1s, 2s, 4s, ... across
/// consecutive drops, capped at 64s: after `k` drops the next wait is
/// `min(2^k, 64)` seconds.
pub proof fn lemma_listener_waits_double_to_cap(k: nat)
    ensures
        wait_after_drops(1, k) == capped_power(k),
{
    assert(capped_power(0) == 1);
    lemma_wait_after_drops_from(0, k);
}

/// Where a listener session stands.
#[derive(Debug, Clone, Copy, PartialEq, Eq, Structural)]
pub enum SessionPhase {
    /// Connected; waiting for the handshake frame.
    AwaitHandshake,
    /// Handshake received: frames, heartbeats and re-registrations.
    Listening,
    /// The session is over.
    Ended,
}

/// What happens to a listener session.
#[derive(Debug)]
pub enum SessionEvent {
    /// A text frame arrived.
    Frame(String),
    /// The server closed the WebSocket.
    Closed,
    /// Receiving failed, with the failure's message.
    ReceiveFailed(String),
    /// The heartbeat interval ([`HEARTBEAT_SECS`]) elapsed.
    HeartbeatDue,
    /// Sending the heartbeat failed, with the failure's message.
    HeartbeatFailed(String),
    /// The re-registration interval ([`RE_REGISTER_SECS`]) elapsed.
    ReRegisterDue,
    /// The session reached [`SESSION_MAX_AGE_SECS`].
    MaxAgeReached,
    /// The user asked to stop (Ctrl-C).
    Interrupted,
}

/// What the listener does next.
#[derive(Debug)]
pub enum SessionAction {
    Nothing,
    /// Register the endpoint with the registrar, then start the heartbeat,
    /// re-registration and session-age timers and announce the connection.
    Register,
    /// Print the line.
    Print(String),
    /// Send the heartbeat frame `2::`.
    SendHeartbeat,
    /// Register the endpoint again, in the background.
    ReRegister,
    /// End the session: by the user's request (`shutdown`), or dropped for
    /// `reason`.
    End { shutdown: bool, reason: String },
}

/// The next phase and action of a listener session on an event. Waiting for
/// the handshake, any frame completes it (the endpoint is then registered),
/// a close or a receive failure ends the session, and the timers are not yet
/// running. While listening, a frame prints its line (see
/// [`frame_line_spec`]); a heartbeat is sent when due; re-registration
/// happens when due; a close, a receive or heartbeat failure, or the age cap
/// drops the session; Ctrl-C shuts it down. An ended session does nothing.
pub open spec fn session_step_spec(phase: SessionPhase, event: SessionEvent) -> (SessionPhase, Option<
    (bool, Seq<char>),
>, SessionActionKind) {
    match phase {
        SessionPhase::AwaitHandshake => match event {
            SessionEvent::Frame(_) => (SessionPhase::Listening, None, SessionActionKind::Register),
            SessionEvent::Closed => (
                SessionPhase::Ended,
                Some((false, "Connection closed before handshake"@)),
                SessionActionKind::End,
            ),
            SessionEvent::ReceiveFailed(m) => (SessionPhase::Ended, Some((false, m@)), SessionActionKind::End),
            _ => (SessionPhase::AwaitHandshake, None, SessionActionKind::Nothing),
        },
        SessionPhase::Listening => match event {
            SessionEvent::Frame(f) => (SessionPhase::Listening, None, match frame_line_spec(f@) {
                Some(_) => SessionActionKind::Print,
                None => SessionActionKind::Nothing,
            }),
            SessionEvent::Closed => (
                SessionPhase::Ended,
                Some((false, "WebSocket closed by server"@)),
                SessionActionKind::End,
            ),
            SessionEvent::ReceiveFailed(m) => (
                SessionPhase::Ended,
                Some((false, "WebSocket recv error: "@ + m@)),
                SessionActionKind::End,
            ),
            SessionEvent::HeartbeatDue => (SessionPhase::Listening, None, SessionActionKind::SendHeartbeat),
            SessionEvent::HeartbeatFailed(m) => (
                SessionPhase::Ended,
                Some((false, "Heartbeat send failed: "@ + m@)),
                SessionActionKind::End,
            ),
            SessionEvent::ReRegisterDue => (SessionPhase::Listening, None, SessionActionKind::ReRegister),
            SessionEvent::MaxAgeReached => (
                SessionPhase::Ended,
                Some((false, "Session max age reached"@)),
                SessionActionKind::End,
            ),
            SessionEvent::Interrupted => (
                SessionPhase::Ended,
                Some((true, "Shutting down..."@)),
                SessionActionKind::End,
            ),
        },
        SessionPhase::Ended => (SessionPhase::Ended, None, SessionActionKind::Nothing),
    }
}

/// The kind of a [`SessionAction`].
#[derive(Debug, Clone, Copy, PartialEq, Eq, Structural)]
pub enum SessionActionKind {
    Nothing,
    Register,
    Print,
    SendHeartbeat,
    ReRegister,
    End,
}

/// The kind of an action.
pub open spec fn action_kind(a: SessionAction) -> SessionActionKind {
    match a {
        SessionAction::Nothing => SessionActionKind::Nothing,
        SessionAction::Register => SessionActionKind::Register,
        SessionAction::Print(_) => SessionActionKind::Print,
        SessionAction::SendHeartbeat => SessionActionKind::SendHeartbeat,
        SessionAction::ReRegister => SessionActionKind::ReRegister,
        SessionAction::End { .. } => SessionActionKind::End,
    }
}

/// The next phase and action of a listener session on `event` (see
/// [`session_step_spec`]); a printed line is the frame's line and an ending
/// carries whether it was a shutdown and its reason.
pub fn session_step(phase: SessionPhase, event: SessionEvent) -> (r: (SessionPhase, SessionAction))
    ensures
        ({
            let (p, end, kind) = session_step_spec(phase, event);
            &&& r.0 == p
            &&& action_kind(r.1) == kind
            &&& match r.1 {
                SessionAction::End { shutdown, reason } => end == Some((shutdown, reason@)),
                SessionAction::Print(line) => event matches SessionEvent::Frame(f)
                    && frame_line_spec(f@) == Some(line@),
                _ => true,
            }
        }),
{
    match phase {
        SessionPhase::AwaitHandshake => match event {
            SessionEvent::Frame(_) => (SessionPhase::Listening, SessionAction::Register),
            SessionEvent::Closed => (
                SessionPhase::Ended,
                SessionAction::End {
                    shutdown: false,
                    reason: owned("Connection closed before handshake"),
                },
            ),
            SessionEvent::ReceiveFailed(m) => (
                SessionPhase::Ended,
                SessionAction::End { shutdown: false, reason: m },
            ),
            _ => (SessionPhase::AwaitHandshake, SessionAction::Nothing),
        },
        SessionPhase::Listening => match event {
            SessionEvent::Frame(f) => match frame_line(f.as_str()) {
                Some(line) => (SessionPhase::Listening, SessionAction::Print(line)),
                None => (SessionPhase::Listening, SessionAction::Nothing),
            },
            SessionEvent::Closed => (
                SessionPhase::Ended,
                SessionAction::End { shutdown: false, reason: owned("WebSocket closed by server") },
            ),
            SessionEvent::ReceiveFailed(m) => {
                let mut v = chars_of("WebSocket recv error: ");
                push_str(&mut v, m.as_str());
                (
                    SessionPhase::Ended,
                    SessionAction::End { shutdown: false, reason: string_from_chars(&v) },
                )
            },
            SessionEvent::HeartbeatDue => (SessionPhase::Listening, SessionAction::SendHeartbeat),
            SessionEvent::HeartbeatFailed(m) => {
                let mut v = chars_of("Heartbeat send failed: ");
                push_str(&mut v, m.as_str());
                (
                    SessionPhase::Ended,
                    SessionAction::End { shutdown: false, reason: string_from_chars(&v) },
                )
            },
            SessionEvent::ReRegisterDue => (SessionPhase::Listening, SessionAction::ReRegister),
            SessionEvent::MaxAgeReached => (
                SessionPhase::Ended,
                SessionAction::End { shutdown: false, reason: owned("Session max age reached") },
            ),
            SessionEvent::Interrupted => (
                SessionPhase::Ended,
                SessionAction::End { shutdown: true, reason: owned("Shutting down...") },
            ),
        },
        SessionPhase::Ended => (SessionPhase::Ended, SessionAction::Nothing),
    }
}

/// A session that has ended stays ended, and only Ctrl-C ends it as a
/// shutdown.
pub proof fn lemma_session_end_is_final(phase: SessionPhase, event: SessionEvent)
    ensures
        phase == SessionPhase::Ended ==> session_step_spec(phase, event).0 == SessionPhase::Ended,
        session_step_spec(phase, event).1 matches Some((true, _)) ==> event is Interrupted,
{
}

} // verus!
