use teams_cli::http::{body_needed, response_failure};
use teams_cli::client::{
    chat_service_url, chatsvcagg_url, client_start, conversation_sources, graph_url,
    message_content, messages_url, refresh_failure, send_message_url, usable_token, ClientStart,
    source_step, SourceAuth, SourceStep, TokenAudience,
};
use teams_cli::json::Json;
use teams_cli::token::{Credentials, StoredToken};

#[test]
fn graph_urls_are_rooted_at_v1() {
    assert_eq!(graph_url("/me"), "https://graph.microsoft.com/v1.0/me");
}

#[test]
fn service_urls_come_from_the_region_or_default() {
    assert_eq!(chat_service_url(&None), "https://amer.ng.msg.teams.microsoft.com");
    assert_eq!(chatsvcagg_url(&None), "https://chatsvcagg.teams.microsoft.com");
    let region = Some(r#"{"chatService":"https://emea.ng.msg.teams.microsoft.com","chatServiceAggregator":"https://agg.eu"}"#.to_string());
    assert_eq!(chat_service_url(&region), "https://emea.ng.msg.teams.microsoft.com");
    assert_eq!(chatsvcagg_url(&region), "https://agg.eu");
    let not_json = Some("us".to_string());
    assert_eq!(chat_service_url(&not_json), "https://amer.ng.msg.teams.microsoft.com");
    let wrong_type = Some(r#"{"chatService":42}"#.to_string());
    assert_eq!(chat_service_url(&wrong_type), "https://amer.ng.msg.teams.microsoft.com");
}

#[test]
fn conversations_are_tried_csa_then_aggregator_then_chat_service() {
    let sources = conversation_sources(20, &None);
    assert_eq!(sources.len(), 3);
    assert_eq!(sources[0].auth, SourceAuth::Bearer);
    assert_eq!(
        sources[0].url,
        "https://teams.microsoft.com/api/csa/api/v1/teams/users/ME/conversations?view=mychats&pageSize=20"
    );
    assert_eq!(sources[1].auth, SourceAuth::SkypeToken);
    assert_eq!(
        sources[1].url,
        "https://chatsvcagg.teams.microsoft.com/api/v2/users/ME/conversations?view=mychats&pageSize=20"
    );
    assert_eq!(sources[2].auth, SourceAuth::SkypeToken);
    assert_eq!(
        sources[2].url,
        "https://amer.ng.msg.teams.microsoft.com/v1/users/ME/conversations?view=mychats&pageSize=20"
    );
}

#[test]
fn message_urls_and_body() {
    assert_eq!(
        messages_url("https://svc", "19:abc@thread.v2", 50),
        "https://svc/v1/users/ME/conversations/19:abc@thread.v2/messages?pageSize=50"
    );
    assert_eq!(send_message_url("https://svc", "19:x"), "https://svc/v1/users/ME/conversations/19:x/messages");
    assert_eq!(message_content("a < b & \"c\""), "<p>a &lt; b &amp; &quot;c&quot;</p>");
}

#[test]
fn tokens_are_checked_before_requests() {
    let now = 10_000;
    assert_eq!(usable_token(&None, TokenAudience::Graph, now), Err("No Graph token. Run 'teams-cli login' first.".to_string()));
    let expired = Some(StoredToken { token: "s".into(), expires_at: Some(10_200) });
    assert_eq!(usable_token(&expired, TokenAudience::Skype, now), Err("Skype token expired. Run 'teams-cli login'.".to_string()));
    let live = Some(StoredToken { token: "secret".into(), expires_at: Some(20_000) });
    assert_eq!(usable_token(&live, TokenAudience::Graph, now), Ok("secret".to_string()));
}

#[test]
fn client_refreshes_or_refuses_stale_tokens() {
    let now = 10_000;
    let mut c = Credentials::default();
    assert!(matches!(client_start(&c, now), ClientStart::Refuse(m) if m == "Token expired and no refresh token. Run 'teams-cli login'."));
    c.refresh_token = Some("r".into());
    assert!(matches!(client_start(&c, now), ClientStart::Refresh));
    c.access_token = Some(StoredToken { token: "a".into(), expires_at: None });
    c.graph_token = Some(StoredToken { token: "g".into(), expires_at: Some(20_000) });
    assert!(matches!(client_start(&c, now), ClientStart::Ready));
    assert_eq!(refresh_failure(&Ok(true)), None);
    assert_eq!(refresh_failure(&Ok(false)).as_deref(), Some("No refresh token available. Run 'teams-cli login'."));
    assert_eq!(
        refresh_failure(&Err("Failed to refresh AAD token: invalid_grant".into())).as_deref(),
        Some("Token refresh failed: Failed to refresh AAD token: invalid_grant. Run 'teams-cli login'.")
    );
}

#[test]
fn json_members_are_looked_up_by_name() {
    let inner = Json::Object(vec![("b".to_string(), Json::Str("c".to_string()))]);
    let doc = Json::Object(vec![
        ("a".to_string(), inner),
        ("n".to_string(), Json::Number("1.5".to_string())),
        ("s".to_string(), Json::Str("text".to_string())),
    ]);
    assert_eq!(doc.get("a").and_then(|a| a.str_member("b")), Some("c"));
    assert!(matches!(doc.get("n"), Some(Json::Number(n)) if n == "1.5"));
    assert_eq!(doc.str_member("s"), Some("text"));
    assert_eq!(doc.str_member("n"), None);
    assert!(doc.get("missing").is_none());
    assert!(Json::Array(vec![Json::Null]).get("a").is_none());
    assert_eq!(Json::Str("x".to_string()).as_str(), Some("x"));
    assert_eq!(Json::Bool(true).as_str(), None);
}

#[test]
fn sent_content_reads_back_as_the_message() {
    for text in ["hello", "it's \"quoted\"", "", "naïve"] {
        assert_eq!(teams_cli::rules::strip_html(&message_content(text)), text);
    }
}

#[test]
fn response_status_decides_the_failure() {
    assert!(!body_needed(200));
    assert!(!body_needed(204));
    assert!(!body_needed(401));
    assert!(body_needed(404));
    assert!(body_needed(500));
    assert!(response_failure(200, "u", String::new()).is_none());
    let unauthorized = response_failure(401, "u", "ignored".into()).unwrap();
    assert_eq!((unauthorized.status, unauthorized.url.as_str(), unauthorized.body.as_str()), (401, "u", ""));
    let missing = response_failure(404, "u", "gone".into()).unwrap();
    assert_eq!((missing.status, missing.body.as_str()), (404, "gone"));
}

/// Follows the endpoint steps over the given outcomes; returns the endpoint
/// read (if any) and how many endpoints were tried.
fn run_sources(answers: &[bool]) -> (Option<usize>, usize) {
    let mut tried = 0;
    for (i, &ok) in answers.iter().enumerate() {
        tried += 1;
        match source_step(i, answers.len(), ok) {
            SourceStep::Read => return (Some(i), tried),
            SourceStep::TryNext => continue,
            SourceStep::GiveUp => return (None, tried),
        }
    }
    (None, tried)
}

#[test]
fn conversation_endpoints_fall_back_in_order() {
    assert_eq!(source_step(0, 3, true), SourceStep::Read);
    assert_eq!(source_step(0, 3, false), SourceStep::TryNext);
    assert_eq!(source_step(1, 3, false), SourceStep::TryNext);
    assert_eq!(source_step(2, 3, false), SourceStep::GiveUp);
    assert_eq!(source_step(2, 3, true), SourceStep::Read);
    assert_eq!(run_sources(&[true, true, true]), (Some(0), 1));
    assert_eq!(run_sources(&[false, true, false]), (Some(1), 2));
    assert_eq!(run_sources(&[false, false, true]), (Some(2), 3));
    assert_eq!(run_sources(&[false, false, false]), (None, 3));
}
