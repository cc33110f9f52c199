//! The records of the native Teams chat service and of Microsoft Graph, the
//! chat and message lists built from them, and their conversion into the
//! domain models.

use vstd::prelude::*;
use crate::models::{Chat, ChatId, Message, MessagePreview, Team, User};
use crate::rules::{contains, contains_spec, strip_html, strip_html_spec};
use crate::text::{all_ws, chars_of, is_blank, lemma_trim_not_blank, lines_of, owned, push_chars_line,
    push_line, push_seq, push_str, string_from_chars, trim, trim_spec};
use crate::time::{parse_timestamp, parse_timestamp_spec};

verus! {

/// Thread metadata of a conversation.
#[derive(Debug)]
pub struct ThreadProperties {
    pub topic: Option<String>,
    pub last_join_at: Option<String>,
    /// For 1:1 chats, the member MRIs.
    pub members: Option<String>,
}

/// A message as the native chat service returns it.
#[derive(Debug)]
pub struct NativeMessage {
    pub id: Option<String>,
    pub compose_time: Option<String>,
    pub original_arrival_time: Option<String>,
    pub im_display_name: Option<String>,
    pub content: Option<String>,
    pub messagetype: Option<String>,
    pub from: Option<String>,
}

/// A conversation as the native chat service returns it.
#[derive(Debug)]
pub struct Conversation {
    pub id: Option<String>,
    pub thread_properties: Option<ThreadProperties>,
    pub last_message: Option<NativeMessage>,
}

/// The text of an optional string.
pub open spec fn opt_view(o: Option<String>) -> Option<Seq<char>> {
    match o {
        Some(s) => Some(s@),
        None => None,
    }
}

/// The text of `o`, or `default` when absent.
pub open spec fn or_default(o: Option<Seq<char>>, default: Seq<char>) -> Seq<char> {
    match o {
        Some(s) => s,
        None => default,
    }
}

/// `a`, or `b` when `a` is absent.
pub open spec fn first_of(a: Option<Seq<char>>, b: Option<Seq<char>>) -> Option<Seq<char>> {
    match a {
        Some(s) => Some(s),
        None => b,
    }
}

/// A copy of an optional string.
pub fn copy_opt(o: &Option<String>) -> (r: Option<String>)
    ensures
        opt_view(r) == opt_view(*o),
{
    match o {
        Some(s) => Some(owned(s.as_str())),
        None => None,
    }
}

/// The topic of a conversation, if it has one.
pub open spec fn topic_of(c: Conversation) -> Option<Seq<char>> {
    match c.thread_properties {
        Some(p) => opt_view(p.topic),
        None => None,
    }
}

/// The display name of the sender of a conversation's last message.
pub open spec fn last_sender_of(c: Conversation) -> Option<Seq<char>> {
    match c.last_message {
        Some(m) => opt_view(m.im_display_name),
        None => None,
    }
}

/// The display name of a conversation: its non-empty topic, else the
/// non-empty display name of its last message's sender, else its id, else
/// `[unknown]`.
pub open spec fn conversation_name_spec(c: Conversation) -> Seq<char> {
    if topic_of(c) is Some && topic_of(c)->0.len() > 0 {
        topic_of(c)->0
    } else if last_sender_of(c) is Some && last_sender_of(c)->0.len() > 0 {
        last_sender_of(c)->0
    } else {
        or_default(opt_view(c.id), "[unknown]"@)
    }
}

/// The name of a chat depends on its topic only through whether the topic is
/// a non-empty string: a non-empty topic is the name; an empty topic gives
/// the same name as no topic at all, which is the non-empty display name of
/// the last message's sender, else the id, else `[unknown]`.
pub proof fn lemma_empty_topic_is_no_topic(c: Conversation, d: Conversation)
    ensures
        topic_of(c) matches Some(t) ==> (t.len() > 0 ==> conversation_name_spec(c) == t),
        topic_of(d) is None ==> conversation_name_spec(d) == (match last_sender_of(d) {
            Some(n) => if n.len() > 0 {
                n
            } else {
                or_default(opt_view(d.id), "[unknown]"@)
            },
            None => or_default(opt_view(d.id), "[unknown]"@),
        }),
        topic_of(c) == Some(Seq::<char>::empty()) && topic_of(d) is None && last_sender_of(c)
            == last_sender_of(d) && opt_view(c.id) == opt_view(d.id) ==> conversation_name_spec(c)
            == conversation_name_spec(d),
{
}

/// Display name for a conversation.
pub fn conversation_name(conv: &Conversation) -> (r: String)
    ensures
        r@ == conversation_name_spec(*conv),
{
    if let Some(props) = &conv.thread_properties {
        if let Some(topic) = &props.topic {
            if topic.as_str().is_empty() == false {
                return owned(topic.as_str());
            }
        }
    }
    if let Some(msg) = &conv.last_message {
        if let Some(name) = &msg.im_display_name {
            if name.as_str().is_empty() == false {
                return owned(name.as_str());
            }
        }
    }
    match &conv.id {
        Some(id) => owned(id.as_str()),
        None => owned("[unknown]"),
    }
}

/// A chat id names a group chat when it contains `thread` or `meeting`.
pub open spec fn is_group_spec(id: Seq<char>) -> bool {
    contains_spec(id, "thread"@) || contains_spec(id, "meeting"@)
}

/// Whether a chat id names a group chat (it contains `thread` or `meeting`).
pub fn is_group_id(id: &str) -> (r: bool)
    ensures
        r == is_group_spec(id@),
{
    contains(id, "thread") || contains(id, "meeting")
}

/// The number of bytes of `c` in UTF-8.
pub open spec fn utf8_width(c: char) -> nat {
    let u = c as u32;
    if u < 0x80 {
        1
    } else if u < 0x800 {
        2
    } else if u < 0x10000 {
        3
    } else {
        4
    }
}

/// The number of bytes of `s` in UTF-8 (`str::len`).
pub open spec fn utf8_size(s: Seq<char>) -> nat
    decreases s.len(),
{
    if s.len() == 0 {
        0
    } else {
        utf8_size(s.drop_last()) + utf8_width(s.last())
    }
}

/// The number of leading characters of `s` that precede its last character
/// starting at a byte offset of at most `budget`.
pub open spec fn kept_chars(s: Seq<char>, budget: int) -> nat
    decreases s.len(),
{
    if s.len() <= 1 {
        0
    } else if utf8_width(s[0]) <= budget {
        1 + kept_chars(s.drop_first(), budget - utf8_width(s[0]))
    } else {
        0
    }
}

/// The preview of a message text: a text of more than 80 bytes is cut at the
/// last character boundary at or before byte 77 and followed by `...`.
pub open spec fn preview_spec(text: Seq<char>) -> Seq<char> {
    if utf8_size(text) > 80 {
        text.take(kept_chars(text, 77) as int) + "..."@
    } else {
        text
    }
}

fn char_width(c: char) -> (r: u64)
    ensures
        r == utf8_width(c),
{
    let u = c as u32;
    if u < 0x80 {
        1
    } else if u < 0x800 {
        2
    } else if u < 0x10000 {
        3
    } else {
        4
    }
}

proof fn lemma_utf8_size_prefix(s: Seq<char>, j: int)
    requires
        0 <= j <= s.len(),
    ensures
        utf8_size(s.take(j)) <= utf8_size(s),
    decreases s.len(),
{
    if j < s.len() {
        assert(s.drop_last().take(j) =~= s.take(j));
        lemma_utf8_size_prefix(s.drop_last(), j);
    } else {
        assert(s.take(j) =~= s);
    }
}

/// Whether the UTF-8 encoding of `cs` is longer than `limit` bytes.
fn exceeds_bytes(cs: &Vec<char>, limit: u64) -> (r: bool)
    requires
        limit <= 1000,
    ensures
        r == (utf8_size(cs@) > limit),
{
    let mut total: u64 = 0;
    let mut i: usize = 0;
    while i < cs.len()
        invariant
            i <= cs@.len(),
            limit <= 1000,
            total == utf8_size(cs@.take(i as int)),
            total <= limit,
        decreases cs@.len() - i,
    {
        assert(cs@.take(i + 1).drop_last() =~= cs@.take(i as int));
        total = total + char_width(cs[i]);
        i = i + 1;
        if total > limit {
            proof {
                lemma_utf8_size_prefix(cs@, i as int);
            }
            return true;
        }
    }
    assert(cs@.take(i as int) =~= cs@);
    false
}

/// The preview of a message text (see [`preview_spec`]).
pub fn preview_text(text: String) -> (r: String)
    ensures
        r@ == preview_spec(text@),
{
    let cs = chars_of(text.as_str());
    if !exceeds_bytes(&cs, 80) {
        return text;
    }
    let mut k: usize = 0;
    let mut budget: u64 = 77;
    assert(cs@.skip(0) =~= cs@);
    assert(cs@.len() > 0) by {
        if cs@.len() == 0 {
            assert(utf8_size(cs@) == 0);
        }
    }
    let last: usize = cs.len() - 1;
    while k < last && char_width(cs[k]) <= budget
        invariant
            k < cs@.len(),
            last == cs@.len() - 1,
            budget <= 77,
            cs@ == text@,
            kept_chars(cs@, 77) == k + kept_chars(cs@.skip(k as int), budget as int),
        decreases cs@.len() - k,
    {
        let ghost rest = cs@.skip(k as int);
        assert(rest[0] == cs@[k as int]);
        assert(rest.drop_first() =~= cs@.skip(k + 1));
        budget = budget - char_width(cs[k]);
        k = k + 1;
    }
    assert(kept_chars(cs@.skip(k as int), budget as int) == 0) by {
        let rest = cs@.skip(k as int);
        if rest.len() > 1 {
            assert(rest[0] == cs@[k as int]);
        }
    }
    let mut out: Vec<char> = Vec::new();
    let mut i: usize = 0;
    while i < k
        invariant
            i <= k < cs@.len(),
            out@ == cs@.take(i as int),
        decreases k - i,
    {
        out.push(cs[i]);
        i = i + 1;
        assert(out@ =~= cs@.take(i as int));
    }
    push_str(&mut out, "...");
    string_from_chars(&out)
}

proof fn lemma_utf8_size_prepend(c: char, s: Seq<char>)
    ensures
        utf8_size(seq![c] + s) == utf8_width(c) + utf8_size(s),
    decreases s.len(),
{
    let t = seq![c] + s;
    if s.len() > 0 {
        assert(t.drop_last() =~= seq![c] + s.drop_last());
        assert(t.last() == s.last());
        lemma_utf8_size_prepend(c, s.drop_last());
    } else {
        assert(t.drop_last() =~= Seq::<char>::empty());
        assert(t.last() == c);
        assert(utf8_size(Seq::<char>::empty()) == 0);
    }
}

proof fn lemma_utf8_size_concat(a: Seq<char>, b: Seq<char>)
    ensures
        utf8_size(a + b) == utf8_size(a) + utf8_size(b),
    decreases b.len(),
{
    if b.len() > 0 {
        assert((a + b).drop_last() =~= a + b.drop_last());
        lemma_utf8_size_concat(a, b.drop_last());
    } else {
        assert(a + b =~= a);
    }
}

proof fn lemma_kept_prefix_fits(s: Seq<char>, budget: int)
    requires
        budget >= 0,
    ensures
        kept_chars(s, budget) < s.len() || s.len() == 0,
        utf8_size(s.take(kept_chars(s, budget) as int)) <= budget,
    decreases s.len(),
{
    let k = kept_chars(s, budget);
    if s.len() <= 1 {
        assert(s.take(0) =~= Seq::<char>::empty());
    } else if utf8_width(s[0]) <= budget {
        let rest = s.drop_first();
        lemma_kept_prefix_fits(rest, budget - utf8_width(s[0]));
        let j = kept_chars(rest, budget - utf8_width(s[0]));
        assert(s.take(k as int) =~= seq![s[0]] + rest.take(j as int));
        lemma_utf8_size_prepend(s[0], rest.take(j as int));
    } else {
        assert(s.take(0) =~= Seq::<char>::empty());
    }
}

proof fn lemma_kept_is_last_boundary(s: Seq<char>, budget: int)
    requires
        budget >= 0,
        s.len() > 0,
    ensures
        kept_chars(s, budget) + 1 == s.len() || utf8_size(
            s.take(kept_chars(s, budget) + 1int),
        ) > budget,
    decreases s.len(),
{
    let k = kept_chars(s, budget);
    if s.len() > 1 {
        if utf8_width(s[0]) <= budget {
            let rest = s.drop_first();
            let b = budget - utf8_width(s[0]);
            lemma_kept_is_last_boundary(rest, b);
            let j = kept_chars(rest, b);
            lemma_kept_prefix_fits(rest, b);
            assert(k == j + 1);
            if j + 1 != rest.len() {
                assert(s.take(k + 1int) =~= seq![s[0]] + rest.take(j + 1int));
                lemma_utf8_size_prepend(s[0], rest.take(j + 1int));
            }
        } else {
            assert(s.take(1) =~= seq![s[0]] + Seq::<char>::empty());
            lemma_utf8_size_prepend(s[0], Seq::<char>::empty());
        }
    }
}

/// A text of more than 80 bytes is cut at the last character boundary at or
/// before byte 77: the kept characters take at most 77 bytes, and keeping one
/// more would pass byte 77 unless only the last character is left out.
pub proof fn lemma_preview_cut_is_last_boundary(text: Seq<char>)
    requires
        utf8_size(text) > 80,
    ensures
        preview_spec(text) == text.take(kept_chars(text, 77) as int) + "..."@,
        utf8_size(text.take(kept_chars(text, 77) as int)) <= 77,
        kept_chars(text, 77) + 1 == text.len() || utf8_size(
            text.take(kept_chars(text, 77) + 1int),
        ) > 77,
{
    if text.len() == 0 {
        assert(utf8_size(text) == 0);
    }
    lemma_kept_prefix_fits(text, 77);
    lemma_kept_is_last_boundary(text, 77);
}

/// A preview never takes more than 80 bytes, and a text of at most 80 bytes
/// is its own preview.
pub proof fn lemma_preview_fits(text: Seq<char>)
    ensures
        utf8_size(preview_spec(text)) <= 80,
        utf8_size(text) <= 80 ==> preview_spec(text) == text,
{
    if utf8_size(text) > 80 {
        let k = kept_chars(text, 77);
        lemma_kept_prefix_fits(text, 77);
        lemma_utf8_size_concat(text.take(k as int), "..."@);
        reveal_strlit("...");
        assert(utf8_size("..."@) == 3) by {
            reveal_with_fuel(utf8_size, 4);
        }
    }
}

/// Chat metadata for display.
#[derive(Debug)]
pub struct ChatInfo {
    pub id: String,
    pub name: String,
    pub is_group: bool,
    pub last_message_time: Option<String>,
    pub last_message_sender: Option<String>,
    pub last_message_preview: Option<String>,
}

/// The contents of a [`ChatInfo`].
pub struct ChatInfoView {
    pub id: Seq<char>,
    pub name: Seq<char>,
    pub is_group: bool,
    pub last_message_time: Option<Seq<char>>,
    pub last_message_sender: Option<Seq<char>>,
    pub last_message_preview: Option<Seq<char>>,
}

impl View for ChatInfo {
    type V = ChatInfoView;

    open spec fn view(&self) -> ChatInfoView {
        ChatInfoView {
            id: self.id@,
            name: self.name@,
            is_group: self.is_group,
            last_message_time: opt_view(self.last_message_time),
            last_message_sender: opt_view(self.last_message_sender),
            last_message_preview: opt_view(self.last_message_preview),
        }
    }
}

/// The arrival time of a message, else its compose time.
pub open spec fn message_time(m: NativeMessage) -> Option<Seq<char>> {
    first_of(opt_view(m.original_arrival_time), opt_view(m.compose_time))
}

/// The chat listed for a conversation: none without a non-empty id;
/// otherwise its id, name, group flag and, from its last message, the time,
/// the sender and the preview of the HTML-stripped content.
pub open spec fn chat_entry(c: Conversation) -> Option<ChatInfoView> {
    let id = or_default(opt_view(c.id), Seq::empty());
    if id.len() == 0 {
        None
    } else {
        Some(
            ChatInfoView {
                id: id,
                name: conversation_name_spec(c),
                is_group: is_group_spec(id),
                last_message_time: match c.last_message {
                    Some(m) => message_time(m),
                    None => None,
                },
                last_message_sender: last_sender_of(c),
                last_message_preview: match c.last_message {
                    Some(m) => match opt_view(m.content) {
                        Some(content) => Some(preview_spec(strip_html_spec(content))),
                        None => None,
                    },
                    None => None,
                },
            },
        )
    }
}

/// The chats listed for a sequence of conversations, in order.
pub open spec fn chats_spec(cs: Seq<Conversation>) -> Seq<ChatInfoView>
    decreases cs.len(),
{
    if cs.len() == 0 {
        Seq::empty()
    } else {
        let rest = chats_spec(cs.drop_last());
        match chat_entry(cs.last()) {
            Some(v) => rest.push(v),
            None => rest,
        }
    }
}

/// Every listed chat has an id: conversations without one are left out.
pub proof fn lemma_listed_chats_have_ids(cs: Seq<Conversation>)
    ensures
        forall|i: int| 0 <= i < chats_spec(cs).len() ==> (#[trigger] chats_spec(cs)[i]).id.len() > 0,
        chats_spec(cs).len() <= cs.len(),
    decreases cs.len(),
{
    if cs.len() > 0 {
        let rest = cs.drop_last();
        lemma_listed_chats_have_ids(rest);
        assert forall|i: int| 0 <= i < chats_spec(cs).len() implies (#[trigger] chats_spec(
            cs,
        )[i]).id.len() > 0 by {
            if i < chats_spec(rest).len() {
                assert(chats_spec(cs)[i] == chats_spec(rest)[i]);
            }
        }
    }
}

/// The arrival time of a message, else its compose time, as a copy.
fn time_of(m: &NativeMessage) -> (r: Option<String>)
    ensures
        opt_view(r) == message_time(*m),
{
    match &m.original_arrival_time {
        Some(t) => Some(owned(t.as_str())),
        None => copy_opt(&m.compose_time),
    }
}

/// The chat listed for one conversation (see [`chat_entry`]).
pub fn chat_info_of(conv: &Conversation) -> (r: Option<ChatInfo>)
    ensures
        match chat_entry(*conv) {
            Some(v) => r matches Some(info) && info@ == v,
            None => r is None,
        },
{
    let id = match &conv.id {
        Some(id) => owned(id.as_str()),
        None => String::new(),
    };
    if id.as_str().is_empty() {
        return None;
    }
    let name = conversation_name(conv);
    let is_group = is_group_id(id.as_str());
    let (time, sender, preview) = match &conv.last_message {
        Some(msg) => {
            let time = time_of(msg);
            let sender = copy_opt(&msg.im_display_name);
            let preview = match &msg.content {
                Some(c) => Some(preview_text(strip_html(c.as_str()))),
                None => None,
            };
            (time, sender, preview)
        },
        None => (None, None, None),
    };
    Some(
        ChatInfo {
            id,
            name,
            is_group,
            last_message_time: time,
            last_message_sender: sender,
            last_message_preview: preview,
        },
    )
}

/// The chats listed for the conversations returned by the chat service:
/// conversations without an id are skipped, the others keep their order.
pub fn chats_from_conversations(convs: &Vec<Conversation>) -> (r: Vec<ChatInfo>)
    ensures
        r@.map_values(|c: ChatInfo| c@) == chats_spec(convs@),
{
    let mut out: Vec<ChatInfo> = Vec::new();
    let mut i: usize = 0;
    while i < convs.len()
        invariant
            i <= convs@.len(),
            out@.map_values(|c: ChatInfo| c@) == chats_spec(convs@.take(i as int)),
        decreases convs@.len() - i,
    {
        let ghost before = out@;
        let entry = chat_info_of(&convs[i]);
        assert(convs@.take(i + 1).drop_last() =~= convs@.take(i as int));
        assert(convs@.take(i + 1).last() == convs@[i as int]);
        match entry {
            Some(info) => {
                out.push(info);
                assert(out@.map_values(|c: ChatInfo| c@) =~= before.map_values(|c: ChatInfo| c@).push(
                    out@.last()@,
                ));
            },
            None => {},
        }
        i = i + 1;
    }
    assert(convs@.take(i as int) =~= convs@);
    out
}

/// A single message for display.
#[derive(Debug)]
pub struct MessageInfo {
    pub sender: String,
    pub timestamp: String,
    pub content: String,
}

/// The contents of a [`MessageInfo`].
pub struct MessageInfoView {
    pub sender: Seq<char>,
    pub timestamp: Seq<char>,
    pub content: Seq<char>,
}

impl View for MessageInfo {
    type V = MessageInfoView;

    open spec fn view(&self) -> MessageInfoView {
        MessageInfoView { sender: self.sender@, timestamp: self.timestamp@, content: self.content@ }
    }
}

/// A message type that carries text (it contains `Text` or `RichText`).
pub open spec fn is_text_type(t: Seq<char>) -> bool {
    contains_spec(t, "Text"@) || contains_spec(t, "RichText"@)
}

/// The message listed for a native message: none unless its type carries
/// text and its HTML-stripped content is not blank; otherwise its sender
/// (`?` when unknown), its time (empty when unknown) and its trimmed,
/// HTML-stripped content.
pub open spec fn message_entry(m: NativeMessage) -> Option<MessageInfoView> {
    let text = strip_html_spec(or_default(opt_view(m.content), Seq::empty()));
    if !is_text_type(or_default(opt_view(m.messagetype), Seq::empty())) || all_ws(text) {
        None
    } else {
        Some(
            MessageInfoView {
                sender: or_default(opt_view(m.im_display_name), "?"@),
                timestamp: or_default(message_time(m), Seq::empty()),
                content: trim_spec(text),
            },
        )
    }
}

/// The messages listed for the messages returned by the chat service, which
/// come newest first: listed oldest first.
pub open spec fn messages_spec(ms: Seq<NativeMessage>) -> Seq<MessageInfoView>
    decreases ms.len(),
{
    if ms.len() == 0 {
        Seq::empty()
    } else {
        let rest = messages_spec(ms.drop_first());
        match message_entry(ms[0]) {
            Some(v) => rest.push(v),
            None => rest,
        }
    }
}

/// Every listed message has content: non-text messages and messages whose
/// text is blank are left out, and the trimmed text of the others is never
/// empty.
pub proof fn lemma_listed_messages_have_content(ms: Seq<NativeMessage>)
    ensures
        forall|i: int|
            0 <= i < messages_spec(ms).len() ==> (#[trigger] messages_spec(ms)[i]).content.len() > 0,
    decreases ms.len(),
{
    if ms.len() > 0 {
        let rest = ms.drop_first();
        lemma_listed_messages_have_content(rest);
        match message_entry(ms[0]) {
            Some(v) => {
                let text = strip_html_spec(or_default(opt_view(ms[0].content), Seq::empty()));
                lemma_trim_not_blank(text);
                assert forall|i: int| 0 <= i < messages_spec(ms).len() implies (
                #[trigger] messages_spec(ms)[i]).content.len() > 0 by {
                    if i < messages_spec(rest).len() {
                        assert(messages_spec(ms)[i] == messages_spec(rest)[i]);
                    }
                }
            },
            None => {},
        }
    }
}

/// The message listed for one native message (see [`message_entry`]).
pub fn message_info_of(m: &NativeMessage) -> (r: Option<MessageInfo>)
    ensures
        match message_entry(*m) {
            Some(v) => r matches Some(info) && info@ == v,
            None => r is None,
        },
{
    proof {
        reveal_strlit("");
    }
    let msgtype = match &m.messagetype {
        Some(t) => t.as_str(),
        None => "",
    };
    if !contains(msgtype, "Text") && !contains(msgtype, "RichText") {
        return None;
    }
    let content = match &m.content {
        Some(c) => c.as_str(),
        None => "",
    };
    let text = strip_html(content);
    if is_blank(text.as_str()) {
        return None;
    }
    let sender = match &m.im_display_name {
        Some(s) => owned(s.as_str()),
        None => owned("?"),
    };
    let timestamp = match time_of(m) {
        Some(t) => t,
        None => String::new(),
    };
    Some(MessageInfo { sender, timestamp, content: trim(text.as_str()) })
}

/// The messages listed for the messages returned by the chat service
/// (newest first): text messages with non-blank content, oldest first.
pub fn messages_from_native(msgs: &Vec<NativeMessage>) -> (r: Vec<MessageInfo>)
    ensures
        r@.map_values(|m: MessageInfo| m@) == messages_spec(msgs@),
{
    let mut out: Vec<MessageInfo> = Vec::new();
    let mut i: usize = msgs.len();
    assert(msgs@.skip(msgs@.len() as int) =~= Seq::<NativeMessage>::empty());
    while i > 0
        invariant
            i <= msgs@.len(),
            out@.map_values(|m: MessageInfo| m@) == messages_spec(msgs@.skip(i as int)),
        decreases i,
    {
        let ghost before = out@;
        let entry = message_info_of(&msgs[i - 1]);
        assert(msgs@.skip(i - 1).drop_first() =~= msgs@.skip(i as int));
        assert(msgs@.skip(i - 1)[0] == msgs@[i - 1]);
        match entry {
            Some(info) => {
                out.push(info);
                assert(out@.map_values(|m: MessageInfo| m@) =~= before.map_values(
                    |m: MessageInfo| m@,
                ).push(out@.last()@));
            },
            None => {},
        }
        i = i - 1;
    }
    assert(msgs@.skip(0) =~= msgs@);
    out
}

/// The last message of a chat, as the domain sees it: absent when neither a
/// sender nor a preview is known; otherwise the sender and preview (empty
/// when unknown) and the time read as an RFC 3339 timestamp.
pub open spec fn last_message_matches(info: ChatInfoView, p: Option<MessagePreview>) -> bool {
    if info.last_message_sender is None && info.last_message_preview is None {
        p is None
    } else {
        p matches Some(m) && m.sender@ == or_default(info.last_message_sender, Seq::empty())
            && m.text@ == or_default(info.last_message_preview, Seq::empty()) && m.timestamp == (
        match info.last_message_time {
            Some(t) => parse_timestamp_spec(t),
            None => None,
        })
    }
}

/// Convert chat metadata into the domain [`Chat`]; the id is kept as given.
pub fn chat_from_info(info: ChatInfo) -> (r: Chat)
    ensures
        r.id.0@ == info.id@,
        r.name@ == info.name@,
        r.is_group == info.is_group,
        last_message_matches(info@, r.last_message),
{
    let last_message = if info.last_message_sender.is_none() && info.last_message_preview.is_none() {
        None
    } else {
        let timestamp = match &info.last_message_time {
            Some(t) => parse_timestamp(t.as_str()),
            None => None,
        };
        let sender = match info.last_message_sender {
            Some(s) => s,
            None => String::new(),
        };
        let text = match info.last_message_preview {
            Some(p) => p,
            None => String::new(),
        };
        Some(MessagePreview { sender, timestamp, text })
    };
    Chat { id: ChatId(info.id), name: info.name, is_group: info.is_group, last_message }
}

/// Convert a listed message into the domain [`Message`], reading its time as
/// an RFC 3339 timestamp (none when blank or unreadable).
pub fn message_from_info(info: MessageInfo) -> (r: Message)
    ensures
        r.sender@ == info.sender@,
        r.content@ == info.content@,
        r.timestamp == parse_timestamp_spec(info.timestamp@),
{
    let timestamp = parse_timestamp(info.timestamp.as_str());
    Message { sender: info.sender, timestamp, content: info.content }
}

/// The signed-in user as Microsoft Graph reports it.
#[derive(Debug)]
pub struct UserInfo {
    pub id: String,
    pub display_name: String,
    pub mail: Option<String>,
}

/// A team as Microsoft Graph reports it.
#[derive(Debug)]
pub struct TeamInfo {
    pub id: String,
    pub name: String,
}

/// Convert a Graph user into the domain [`User`]; the mail becomes the email.
pub fn user_from_info(info: UserInfo) -> (r: User)
    ensures
        r.id@ == info.id@,
        r.display_name@ == info.display_name@,
        opt_view(r.email) == opt_view(info.mail),
{
    User { id: info.id, display_name: info.display_name, email: info.mail }
}

/// Convert a Graph team into the domain [`Team`]; Graph gives no description.
pub fn team_from_info(info: TeamInfo) -> (r: Team)
    ensures
        r.id@ == info.id@,
        r.display_name@ == info.name@,
        r.description is None,
{
    Team { id: info.id, display_name: info.name, description: None }
}

/// The lines of one listed chat: its name, its id, its last message time
/// when known, its preview (trimmed) when not blank, after its sender (`?`
/// when unknown), and a blank line.
pub open spec fn chat_info_lines_spec(c: ChatInfoView) -> Seq<Seq<char>> {
    seq![c.name, "  ID: "@ + c.id] + (match c.last_message_time {
        Some(t) => seq!["  Last: "@ + t],
        None => Seq::empty(),
    }) + (match c.last_message_preview {
        Some(p) => if all_ws(p) {
            Seq::empty()
        } else {
            seq!["  ["@ + or_default(c.last_message_sender, "?"@) + "]: "@ + trim_spec(p)]
        },
        None => Seq::empty(),
    }) + seq![Seq::<char>::empty()]
}

/// The lines of a sequence of listed chats, in order.
pub open spec fn chat_listing_body(cs: Seq<ChatInfoView>) -> Seq<Seq<char>>
    decreases cs.len(),
{
    if cs.len() == 0 {
        Seq::empty()
    } else {
        chat_listing_body(cs.drop_last()) + chat_info_lines_spec(cs.last())
    }
}

/// The listing printed by the `chats` command for listed chats: a blank
/// line, `Recent Chats:`, a rule, then the chats or `  (no chats found)`.
pub open spec fn chat_listing_spec(cs: Seq<ChatInfoView>) -> Seq<Seq<char>> {
    seq![Seq::<char>::empty(), "Recent Chats:"@, crate::console::rule_spec()] + if cs.len() == 0 {
        seq!["  (no chats found)"@]
    } else {
        chat_listing_body(cs)
    }
}

/// The listing printed by the `chats` command (see [`chat_listing_spec`]).
pub fn chat_listing(chats: &[ChatInfo]) -> (r: Vec<String>)
    ensures
        lines_of(r@) == chat_listing_spec(chats@.map_values(|c: ChatInfo| c@)),
{
    let ghost views = chats@.map_values(|c: ChatInfo| c@);
    let mut out: Vec<String> = Vec::new();
    push_line(&mut out, String::new());
    push_line(&mut out, owned("Recent Chats:"));
    push_line(&mut out, crate::console::rule());
    let ghost head = lines_of(out@);
    if chats.len() == 0 {
        push_line(&mut out, owned("  (no chats found)"));
        assert(lines_of(out@) =~= chat_listing_spec(views));
        return out;
    }
    let mut i: usize = 0;
    assert(chat_listing_body(views.take(0)) =~= Seq::<Seq<char>>::empty());
    assert(lines_of(out@) =~= head + chat_listing_body(views.take(0)));
    while i < chats.len()
        invariant
            i <= chats@.len(),
            views == chats@.map_values(|c: ChatInfo| c@),
            lines_of(out@) == head + chat_listing_body(views.take(i as int)),
        decreases chats@.len() - i,
    {
        let ghost before = lines_of(out@);
        let c = &chats[i];
        push_line(&mut out, owned(c.name.as_str()));
        let mut idv = chars_of("  ID: ");
        push_str(&mut idv, c.id.as_str());
        push_chars_line(&mut out, &idv);
        if let Some(time) = &c.last_message_time {
            let mut tv = chars_of("  Last: ");
            push_str(&mut tv, time.as_str());
            push_chars_line(&mut out, &tv);
        }
        if let Some(preview) = &c.last_message_preview {
            if !is_blank(preview.as_str()) {
                let mut pv = chars_of("  [");
                match &c.last_message_sender {
                    Some(sender) => push_str(&mut pv, sender.as_str()),
                    None => push_str(&mut pv, "?"),
                }
                push_str(&mut pv, "]: ");
                let t = trim(preview.as_str());
                push_str(&mut pv, t.as_str());
                push_chars_line(&mut out, &pv);
            }
        }
        push_line(&mut out, String::new());
        assert(views[i as int] == chats@[i as int]@);
        assert(lines_of(out@) =~= before + chat_info_lines_spec(views[i as int]));
        assert(views.take(i + 1).drop_last() =~= views.take(i as int));
        i = i + 1;
        assert(lines_of(out@) =~= head + chat_listing_body(views.take(i as int)));
    }
    assert(views.take(i as int) =~= views);
    assert(lines_of(out@) =~= chat_listing_spec(views));
    out
}

/// The line of one listed message: `[{timestamp}] {sender}: {content}`.
pub open spec fn message_info_line_spec(m: MessageInfo) -> Seq<char> {
    "["@ + m.timestamp@ + "] "@ + m.sender@ + ": "@ + m.content@
}

/// The listing printed by the `read` command: one line per message, or
/// `(no messages)`.
pub fn message_listing(msgs: &[MessageInfo]) -> (r: Vec<String>)
    ensures
        lines_of(r@) == (if msgs@.len() == 0 {
            seq!["(no messages)"@]
        } else {
            msgs@.map_values(|m: MessageInfo| message_info_line_spec(m))
        }),
{
    let mut out: Vec<String> = Vec::new();
    if msgs.len() == 0 {
        push_line(&mut out, owned("(no messages)"));
        assert(lines_of(out@) =~= seq!["(no messages)"@]);
        return out;
    }
    let mut i: usize = 0;
    while i < msgs.len()
        invariant
            i <= msgs@.len(),
            lines_of(out@) == msgs@.take(i as int).map_values(
                |m: MessageInfo| message_info_line_spec(m),
            ),
        decreases msgs@.len() - i,
    {
        let m = &msgs[i];
        let mut v = chars_of("[");
        push_str(&mut v, m.timestamp.as_str());
        push_str(&mut v, "] ");
        push_str(&mut v, m.sender.as_str());
        push_str(&mut v, ": ");
        push_str(&mut v, m.content.as_str());
        push_chars_line(&mut out, &v);
        i = i + 1;
        assert(lines_of(out@) =~= msgs@.take(i as int).map_values(
            |m: MessageInfo| message_info_line_spec(m),
        ));
    }
    assert(msgs@.take(i as int) =~= msgs@);
    out
}

} // verus!
