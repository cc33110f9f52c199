//! What the Teams client sends and which tokens it uses: the service URLs,
//! the order in which the conversation endpoints are tried, the body of an
//! outgoing message, and the token checks made before any request.

use vstd::prelude::*;
use crate::api::opt_view;
use crate::json::{json_parse, parse_json, str_member};
use crate::rules::{html_escape, html_escape_spec};
use crate::text::{chars_of, decimal, owned, push_decimal, push_str, string_from_chars};
use crate::token::{Credentials, StoredToken};

verus! {

/// The base URL of Microsoft Graph.
pub open spec fn graph_base_spec() -> Seq<char> {
    "https://graph.microsoft.com/v1.0"@
}

/// The chat service used when the stored region names none.
pub open spec fn default_chat_service_spec() -> Seq<char> {
    "https://amer.ng.msg.teams.microsoft.com"@
}

/// The chat service aggregator used when the stored region names none.
pub open spec fn default_chatsvcagg_spec() -> Seq<char> {
    "https://chatsvcagg.teams.microsoft.com"@
}

/// The URL of a Graph API path.
pub fn graph_url(path: &str) -> (r: String)
    ensures
        r@ == graph_base_spec() + path@,
{
    let mut v = chars_of("https://graph.microsoft.com/v1.0");
    push_str(&mut v, path);
    string_from_chars(&v)
}

/// The service named `key` in the stored region document (JSON text), or
/// `default` when there is no document, it is not JSON, or it has no such
/// string member.
pub open spec fn region_service(region: Option<Seq<char>>, key: Seq<char>, default: Seq<char>) -> Seq<
    char,
> {
    match region {
        Some(text) => match json_parse(text) {
            Some(doc) => match str_member(doc, key) {
                Some(url) => url,
                None => default,
            },
            None => default,
        },
        None => default,
    }
}

fn region_lookup(region_gtms: &Option<String>, key: &str, default: &str) -> (r: String)
    ensures
        r@ == region_service(opt_view(*region_gtms), key@, default@),
{
    match region_gtms {
        Some(text) => match parse_json(text.as_str()) {
            Some(doc) => match doc.str_member(key) {
                Some(url) => owned(url),
                None => owned(default),
            },
            None => owned(default),
        },
        None => owned(default),
    }
}

/// Chat service base URL from the stored region, falling back to the default.
pub fn chat_service_url(region_gtms: &Option<String>) -> (r: String)
    ensures
        r@ == region_service(opt_view(*region_gtms), "chatService"@, default_chat_service_spec()),
{
    region_lookup(region_gtms, "chatService", "https://amer.ng.msg.teams.microsoft.com")
}

/// Chat service aggregator URL from the stored region, falling back to the
/// default.
pub fn chatsvcagg_url(region_gtms: &Option<String>) -> (r: String)
    ensures
        r@ == region_service(
            opt_view(*region_gtms),
            "chatServiceAggregator"@,
            default_chatsvcagg_spec(),
        ),
{
    region_lookup(region_gtms, "chatServiceAggregator", "https://chatsvcagg.teams.microsoft.com")
}

/// `base` + `middle` + the decimal `n` + `tail`.
fn join_number(base: &str, middle: &str, n: usize, tail: &str) -> (r: String)
    ensures
        r@ == base@ + middle@ + decimal(n as nat) + tail@,
{
    let mut v = chars_of(base);
    push_str(&mut v, middle);
    push_decimal(&mut v, n as u64);
    push_str(&mut v, tail);
    string_from_chars(&v)
}

/// How a conversation endpoint is authenticated.
#[derive(Debug, Clone, Copy, PartialEq, Eq)]
pub enum SourceAuth {
    /// `Authorization: Bearer` with the Skype token and the client version
    /// header (the CSA front door).
    Bearer,
    /// `Authentication: skypetoken=...` (the native chat API).
    SkypeToken,
}

/// One endpoint that can list the user's conversations.
#[derive(Debug)]
pub struct ConversationSource {
    pub auth: SourceAuth,
    pub url: String,
}

/// The CSA conversation list URL.
pub open spec fn csa_conversations_spec(limit: usize) -> Seq<char> {
    "https://teams.microsoft.com/api/csa/api/v1/teams/users/ME/conversations?view=mychats&pageSize="@
        + decimal(limit as nat)
}

/// The chat service aggregator conversation list URL.
pub open spec fn chatsvcagg_conversations_spec(base: Seq<char>, limit: usize) -> Seq<char> {
    base + "/api/v2/users/ME/conversations?view=mychats&pageSize="@ + decimal(limit as nat)
}

/// The chat service conversation list URL.
pub open spec fn chat_service_conversations_spec(base: Seq<char>, limit: usize) -> Seq<char> {
    base + "/v1/users/ME/conversations?view=mychats&pageSize="@ + decimal(limit as nat)
}

/// The endpoints tried, in order, to list up to `limit` conversations: the
/// CSA front door, then the chat service aggregator, then the chat service.
/// The first that answers is used; when all fail, the last failure is
/// reported.
pub fn conversation_sources(limit: usize, region_gtms: &Option<String>) -> (r: Vec<
    ConversationSource,
>)
    ensures
        r@.len() == 3,
        r@[0].auth == SourceAuth::Bearer,
        r@[0].url@ == csa_conversations_spec(limit),
        r@[1].auth == SourceAuth::SkypeToken,
        r@[1].url@ == chatsvcagg_conversations_spec(
            region_service(
                opt_view(*region_gtms),
                "chatServiceAggregator"@,
                default_chatsvcagg_spec(),
            ),
            limit,
        ),
        r@[2].auth == SourceAuth::SkypeToken,
        r@[2].url@ == chat_service_conversations_spec(
            region_service(opt_view(*region_gtms), "chatService"@, default_chat_service_spec()),
            limit,
        ),
{
    let csa = join_number(
        "https://teams.microsoft.com/api/csa/api/v1/teams/users/ME/conversations",
        "?view=mychats&pageSize=",
        limit,
        "",
    );
    let agg_base = chatsvcagg_url(region_gtms);
    let agg = join_number(agg_base.as_str(), "/api/v2/users/ME/conversations?view=mychats&pageSize=", limit, "");
    let svc_base = chat_service_url(region_gtms);
    let svc = join_number(svc_base.as_str(), "/v1/users/ME/conversations?view=mychats&pageSize=", limit, "");
    proof {
        reveal_strlit("");
        reveal_strlit("https://teams.microsoft.com/api/csa/api/v1/teams/users/ME/conversations");
        reveal_strlit("?view=mychats&pageSize=");
        reveal_strlit("https://teams.microsoft.com/api/csa/api/v1/teams/users/ME/conversations?view=mychats&pageSize=");
    }
    assert(csa@ =~= csa_conversations_spec(limit));
    assert(agg@ =~= chatsvcagg_conversations_spec(agg_base@, limit));
    assert(svc@ =~= chat_service_conversations_spec(svc_base@, limit));
    let mut v: Vec<ConversationSource> = Vec::new();
    v.push(ConversationSource { auth: SourceAuth::Bearer, url: csa });
    v.push(ConversationSource { auth: SourceAuth::SkypeToken, url: agg });
    v.push(ConversationSource { auth: SourceAuth::SkypeToken, url: svc });
    v
}

/// What listing the conversations does once the endpoint it tried has
/// answered or failed.
#[derive(Debug, Clone, Copy, PartialEq, Eq, Structural)]
pub enum SourceStep {
    /// Read the conversations from this endpoint's answer.
    Read,
    /// Try the next endpoint.
    TryNext,
    /// Every endpoint failed: report this last failure.
    GiveUp,
}

/// The step after endpoint `tried` (counting from 0) of `count` answered
/// (`answered`) or failed.
pub open spec fn source_step_spec(tried: nat, count: nat, answered: bool) -> SourceStep {
    if answered {
        SourceStep::Read
    } else if tried + 1 < count {
        SourceStep::TryNext
    } else {
        SourceStep::GiveUp
    }
}

/// The step after endpoint `tried` of `count` answered or failed (see
/// [`source_step_spec`]).
pub fn source_step(tried: usize, count: usize, answered: bool) -> (r: SourceStep)
    requires
        tried < count,
    ensures
        r == source_step_spec(tried as nat, count as nat, answered),
{
    if answered {
        SourceStep::Read
    } else if tried + 1 < count {
        SourceStep::TryNext
    } else {
        SourceStep::GiveUp
    }
}

/// The endpoint whose answer is read when, from endpoint `i` on, each
/// endpoint answers or fails as `answers` says and [`source_step`] is
/// followed; none when every one of them fails.
pub open spec fn drive_sources(answers: Seq<bool>, i: nat) -> Option<nat>
    decreases answers.len() - i,
{
    if i < answers.len() {
        match source_step_spec(i, answers.len(), answers[i as int]) {
            SourceStep::Read => Some(i),
            SourceStep::TryNext => drive_sources(answers, i + 1),
            SourceStep::GiveUp => None,
        }
    } else {
        None
    }
}

/// Following [`source_step`] from the first endpoint reads the first endpoint
/// that answers, after every endpoint before it failed; it gives up only when
/// every endpoint failed.
pub proof fn lemma_first_answer_is_read(answers: Seq<bool>)
    ensures
        match drive_sources(answers, 0) {
            Some(k) => k < answers.len() && answers[k as int] && forall|j: int|
                0 <= j < k ==> !answers[j],
            None => forall|j: int| 0 <= j < answers.len() ==> !answers[j],
        },
{
    lemma_drive_from(answers, 0);
}

proof fn lemma_drive_from(answers: Seq<bool>, i: nat)
    ensures
        match drive_sources(answers, i) {
            Some(k) => i <= k < answers.len() && answers[k as int] && forall|j: int|
                i <= j < k ==> !answers[j],
            None => forall|j: int| i <= j < answers.len() ==> !answers[j],
        },
    decreases answers.len() - i,
{
    if i < answers.len() {
        if !answers[i as int] && i + 1 < answers.len() {
            lemma_drive_from(answers, i + 1);
        }
    }
}

/// The URL that reads up to `limit` messages of a chat.
pub fn messages_url(base: &str, chat_id: &str, limit: usize) -> (r: String)
    ensures
        r@ == base@ + "/v1/users/ME/conversations/"@ + chat_id@ + "/messages?pageSize="@ + decimal(
            limit as nat,
        ),
{
    let mut v = chars_of(base);
    push_str(&mut v, "/v1/users/ME/conversations/");
    push_str(&mut v, chat_id);
    push_str(&mut v, "/messages?pageSize=");
    push_decimal(&mut v, limit as u64);
    string_from_chars(&v)
}

/// The URL that posts a message to a chat.
pub fn send_message_url(base: &str, chat_id: &str) -> (r: String)
    ensures
        r@ == base@ + "/v1/users/ME/conversations/"@ + chat_id@ + "/messages"@,
{
    let mut v = chars_of(base);
    push_str(&mut v, "/v1/users/ME/conversations/");
    push_str(&mut v, chat_id);
    push_str(&mut v, "/messages");
    string_from_chars(&v)
}

/// The HTML content of an outgoing message: the escaped text in a paragraph.
pub fn message_content(message: &str) -> (r: String)
    ensures
        r@ == "<p>"@ + html_escape_spec(message@) + "</p>"@,
{
    let escaped = html_escape(message);
    let mut v = chars_of("<p>");
    push_str(&mut v, escaped.as_str());
    push_str(&mut v, "</p>");
    string_from_chars(&v)
}

/// The two token audiences the client authenticates requests with.
#[derive(Debug, Clone, Copy, PartialEq, Eq)]
pub enum TokenAudience {
    Graph,
    Skype,
}

/// The label of an audience in the client's messages.
pub open spec fn audience_label(a: TokenAudience) -> Seq<char> {
    match a {
        TokenAudience::Graph => "Graph"@,
        TokenAudience::Skype => "Skype"@,
    }
}

/// The secret of a stored token if it is usable at `now`; otherwise the
/// message telling the user to log in (`No {label} token. Run 'teams-cli
/// login' first.` when absent, `{label} token expired. Run 'teams-cli
/// login'.` when expired).
pub fn usable_token(token: &Option<StoredToken>, audience: TokenAudience, now: u64) -> (r: Result<
    String,
    String,
>)
    ensures
        match *token {
            None => r matches Err(m) && m@ == "No "@ + audience_label(audience)
                + " token. Run 'teams-cli login' first."@,
            Some(t) => if t.expired_at(now as int) {
                r matches Err(m) && m@ == audience_label(audience)
                    + " token expired. Run 'teams-cli login'."@
            } else {
                r matches Ok(s) && s@ == t.token@
            },
        },
{
    let label = match audience {
        TokenAudience::Graph => "Graph",
        TokenAudience::Skype => "Skype",
    };
    match token {
        None => {
            let mut v = chars_of("No ");
            push_str(&mut v, label);
            push_str(&mut v, " token. Run 'teams-cli login' first.");
            Err(string_from_chars(&v))
        },
        Some(t) => {
            if t.is_expired_at(now) {
                let mut v = chars_of(label);
                push_str(&mut v, " token expired. Run 'teams-cli login'.");
                Err(string_from_chars(&v))
            } else {
                Ok(owned(t.token.as_str()))
            }
        },
    }
}

/// Whether a stored token is missing or expired at `now`.
pub open spec fn stale(t: Option<StoredToken>, now: int) -> bool {
    match t {
        None => true,
        Some(tok) => tok.expired_at(now),
    }
}

/// What building the client does first.
#[derive(Debug)]
pub enum ClientStart {
    /// The stored tokens are usable as they are.
    Ready,
    /// Tokens are missing or expired and a refresh token is stored: refresh,
    /// then reload the credentials.
    Refresh,
    /// Tokens are missing or expired and nothing can renew them.
    Refuse(String),
}

/// What building the client does first at time `now`: when the access or
/// Graph token is missing or expired, refresh if a refresh token is stored,
/// otherwise refuse with `Token expired and no refresh token. Run
/// 'teams-cli login'.`; else go ahead.
pub fn client_start(creds: &Credentials, now: u64) -> (r: ClientStart)
    ensures
        !(stale(creds.access_token, now as int) || stale(creds.graph_token, now as int))
            ==> r is Ready,
        (stale(creds.access_token, now as int) || stale(creds.graph_token, now as int)) ==> (
        if creds.refresh_token is Some {
            r is Refresh
        } else {
            r matches ClientStart::Refuse(m) && m@
                == "Token expired and no refresh token. Run 'teams-cli login'."@
        }),
{
    let access_stale = match &creds.access_token {
        None => true,
        Some(t) => t.is_expired_at(now),
    };
    let graph_stale = match &creds.graph_token {
        None => true,
        Some(t) => t.is_expired_at(now),
    };
    if !(access_stale || graph_stale) {
        ClientStart::Ready
    } else if creds.refresh_token.is_some() {
        ClientStart::Refresh
    } else {
        ClientStart::Refuse(owned("Token expired and no refresh token. Run 'teams-cli login'."))
    }
}

/// The failure of building the client after a refresh attempt, given the
/// refresh outcome (renewed, nothing to renew with, or failed with the
/// message of the failure): none when renewed.
pub fn refresh_failure(outcome: &Result<bool, String>) -> (r: Option<String>)
    ensures
        match *outcome {
            Ok(true) => r is None,
            Ok(false) => r matches Some(m) && m@
                == "No refresh token available. Run 'teams-cli login'."@,
            Err(e) => r matches Some(m) && m@ == "Token refresh failed: "@ + e@
                + ". Run 'teams-cli login'."@,
        },
{
    match outcome {
        Ok(true) => None,
        Ok(false) => Some(owned("No refresh token available. Run 'teams-cli login'.")),
        Err(e) => {
            let mut v = chars_of("Token refresh failed: ");
            push_str(&mut v, e.as_str());
            push_str(&mut v, ". Run 'teams-cli login'.");
            Some(string_from_chars(&v))
        },
    }
}

} // verus!
