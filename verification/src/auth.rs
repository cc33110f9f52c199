//! Azure AD sign-in: the client configuration and its endpoints, the derived
//! tokens acquired after sign-in, and the decisions and messages of the
//! login and status commands.

use vstd::prelude::*;
use crate::text::{chars_of, decimal, lines_of, owned, push_chars_line, push_decimal, push_line,
    push_str, string_from_chars};
use crate::token::{unix_now_secs, Credentials, StoredToken};

verus! {

/// Azure AD client configuration for Teams.
#[derive(Debug, Clone, Copy)]
pub struct AuthConfig {
    /// OAuth2 client ID (public client).
    pub client_id: &'static str,
    /// OAuth2 redirect URI.
    pub redirect_uri: &'static str,
    /// Azure AD tenant.
    pub tenant: &'static str,
    /// Primary resource scope.
    pub scope: &'static str,
}

impl AuthConfig {
    /// Config for work/school accounts (the Teams desktop client id).
    pub fn work() -> (r: Self)
        ensures
            r.client_id@ == "1fec8e78-bce4-4aaf-ab1b-5451cc387264"@,
            r.redirect_uri@ == "https://login.microsoftonline.com/common/oauth2/nativeclient"@,
            r.tenant@ == "common"@,
            r.scope@ == "https://api.spaces.skype.com/.default offline_access"@,
    {
        AuthConfig {
            client_id: "1fec8e78-bce4-4aaf-ab1b-5451cc387264",
            redirect_uri: "https://login.microsoftonline.com/common/oauth2/nativeclient",
            tenant: "common",
            scope: "https://api.spaces.skype.com/.default offline_access",
        }
    }

    /// Config for personal (consumer) accounts.
    pub fn personal() -> (r: Self)
        ensures
            r.client_id@ == "8ec6bc83-69c8-4392-8f08-b3c986009232"@,
            r.redirect_uri@ == "https://login.microsoftonline.com/common/oauth2/nativeclient"@,
            r.tenant@ == "consumers"@,
            r.scope@ == "https://api.spaces.skype.com/.default offline_access"@,
    {
        AuthConfig {
            client_id: "8ec6bc83-69c8-4392-8f08-b3c986009232",
            redirect_uri: "https://login.microsoftonline.com/common/oauth2/nativeclient",
            tenant: "consumers",
            scope: "https://api.spaces.skype.com/.default offline_access",
        }
    }

    /// The endpoint `https://login.microsoftonline.com/{tenant}/oauth2/v2.0/{leaf}`.
    pub open spec fn endpoint(&self, leaf: Seq<char>) -> Seq<char> {
        "https://login.microsoftonline.com/"@ + self.tenant@ + "/oauth2/v2.0/"@ + leaf
    }

    fn endpoint_url(&self, leaf: &str) -> (r: String)
        ensures
            r@ == self.endpoint(leaf@),
    {
        let mut v = chars_of("https://login.microsoftonline.com/");
        push_str(&mut v, self.tenant);
        push_str(&mut v, "/oauth2/v2.0/");
        push_str(&mut v, leaf);
        string_from_chars(&v)
    }

    /// The authorization endpoint of the tenant.
    pub fn authorize_url(&self) -> (r: String)
        ensures
            r@ == self.endpoint("authorize"@),
    {
        self.endpoint_url("authorize")
    }

    /// The token endpoint of the tenant.
    pub fn token_url(&self) -> (r: String)
        ensures
            r@ == self.endpoint("token"@),
    {
        self.endpoint_url("token")
    }

    /// The device authorization endpoint of the tenant.
    pub fn device_code_url(&self) -> (r: String)
        ensures
            r@ == self.endpoint("devicecode"@),
    {
        self.endpoint_url("devicecode")
    }
}

impl Default for AuthConfig {
    /// The work/school configuration.
    fn default() -> (r: Self)
        ensures
            r.client_id@ == "1fec8e78-bce4-4aaf-ab1b-5451cc387264"@,
            r.redirect_uri@ == "https://login.microsoftonline.com/common/oauth2/nativeclient"@,
            r.tenant@ == "common"@,
            r.scope@ == "https://api.spaces.skype.com/.default offline_access"@,
    {
        Self::work()
    }
}

/// A derived token audience.
#[derive(Debug, Clone, Copy, PartialEq, Eq)]
pub enum DerivedToken {
    /// Acquired from the AAD access token directly, not by a refresh-token
    /// exchange.
    Skype,
    Graph,
    Ic3,
    Recorder,
}

/// The OAuth2 scope each refresh-exchanged audience is requested with.
pub open spec fn scope_spec(t: DerivedToken) -> Seq<char> {
    match t {
        DerivedToken::Graph => "https://graph.microsoft.com/.default"@,
        DerivedToken::Ic3 => "https://ic3.teams.office.com/.default"@,
        DerivedToken::Recorder => "4580fd1d-e5a3-4f56-9ad1-aab0e3bf8f76/.default"@,
        DerivedToken::Skype => Seq::empty(),
    }
}

/// The label of an audience in the login messages.
pub open spec fn label_spec(t: DerivedToken) -> Seq<char> {
    match t {
        DerivedToken::Skype => "Skype"@,
        DerivedToken::Graph => "Graph"@,
        DerivedToken::Ic3 => "IC3"@,
        DerivedToken::Recorder => "Recorder"@,
    }
}

impl DerivedToken {
    /// The OAuth2 scope for a refresh-token exchange. The Skype token has
    /// none: it is exchanged from the AAD access token.
    pub fn scope(&self) -> (r: &'static str)
        requires
            *self != DerivedToken::Skype,
        ensures
            r@ == scope_spec(*self),
    {
        match self {
            DerivedToken::Graph => "https://graph.microsoft.com/.default",
            DerivedToken::Ic3 => "https://ic3.teams.office.com/.default",
            DerivedToken::Recorder => "4580fd1d-e5a3-4f56-9ad1-aab0e3bf8f76/.default",
            DerivedToken::Skype => "",
        }
    }

    /// The label of the audience (`Skype`, `Graph`, `IC3`, `Recorder`).
    pub fn label(&self) -> (r: &'static str)
        ensures
            r@ == label_spec(*self),
    {
        match self {
            DerivedToken::Skype => "Skype",
            DerivedToken::Graph => "Graph",
            DerivedToken::Ic3 => "IC3",
            DerivedToken::Recorder => "Recorder",
        }
    }

    /// The warning shown, during an interactive login, when the token could
    /// not be acquired.
    pub fn failure_notice(&self) -> (r: &'static str)
        ensures
            r@ == (match *self {
                DerivedToken::Skype => "Warning: Skype token exchange failed; some operations may not work."@,
                DerivedToken::Graph => "Warning: Graph token acquisition failed; whoami/chats may not work."@,
                DerivedToken::Ic3 => "Warning: IC3 token acquisition failed; trouter may not work."@,
                DerivedToken::Recorder => "Warning: Recorder token acquisition failed; recording may not work."@,
            }),
    {
        match self {
            DerivedToken::Skype => "Warning: Skype token exchange failed; some operations may not work.",
            DerivedToken::Graph => "Warning: Graph token acquisition failed; whoami/chats may not work.",
            DerivedToken::Ic3 => "Warning: IC3 token acquisition failed; trouter may not work.",
            DerivedToken::Recorder => "Warning: Recorder token acquisition failed; recording may not work.",
        }
    }
}

/// The audiences obtained by exchanging the refresh token, in the order
/// they are acquired after the Skype token: Graph, IC3, Recorder.
pub fn exchanged_tokens() -> (r: Vec<DerivedToken>)
    ensures
        r@ == seq![DerivedToken::Graph, DerivedToken::Ic3, DerivedToken::Recorder],
{
    let mut v: Vec<DerivedToken> = Vec::new();
    v.push(DerivedToken::Graph);
    v.push(DerivedToken::Ic3);
    v.push(DerivedToken::Recorder);
    v
}

/// The refresh token to exchange for a derived token: the stored one when
/// present and non-empty; otherwise the exchange is skipped.
pub fn exchangeable(refresh_token: &Option<String>) -> (r: Option<String>)
    ensures
        match *refresh_token {
            Some(t) => if t@.len() > 0 {
                r matches Some(x) && x@ == t@
            } else {
                r is None
            },
            None => r is None,
        },
{
    match refresh_token {
        Some(t) => {
            if t.as_str().is_empty() {
                None
            } else {
                Some(owned(t.as_str()))
            }
        },
        None => None,
    }
}

/// Which derived tokens were successfully acquired.
#[derive(Debug, Clone, Copy)]
pub struct AcquireReport {
    pub skype_ok: bool,
    pub graph_ok: bool,
    pub ic3_ok: bool,
    pub recorder_ok: bool,
}

/// The labels of the tokens of `r` not acquired, in Skype, Graph, IC3,
/// Recorder order.
pub open spec fn missing_spec(r: AcquireReport) -> Seq<Seq<char>> {
    (if r.skype_ok {
        Seq::empty()
    } else {
        seq!["Skype"@]
    }) + (if r.graph_ok {
        Seq::empty()
    } else {
        seq!["Graph"@]
    }) + (if r.ic3_ok {
        Seq::empty()
    } else {
        seq!["IC3"@]
    }) + (if r.recorder_ok {
        Seq::empty()
    } else {
        seq!["Recorder"@]
    })
}

impl Default for AcquireReport {
    /// Nothing acquired yet.
    fn default() -> (r: Self)
        ensures
            !r.skype_ok && !r.graph_ok && !r.ic3_ok && !r.recorder_ok,
    {
        AcquireReport { skype_ok: false, graph_ok: false, ic3_ok: false, recorder_ok: false }
    }
}

impl AcquireReport {
    /// Labels of the tokens that were NOT acquired, in Skype, Graph, IC3,
    /// Recorder order.
    pub fn missing(&self) -> (r: Vec<&'static str>)
        ensures
            r@.map_values(|s: &str| s@) == missing_spec(*self),
    {
        let mut v: Vec<&'static str> = Vec::new();
        if !self.skype_ok {
            v.push("Skype");
        }
        if !self.graph_ok {
            v.push("Graph");
        }
        if !self.ic3_ok {
            v.push("IC3");
        }
        if !self.recorder_ok {
            v.push("Recorder");
        }
        assert(v@.map_values(|s: &str| s@) =~= missing_spec(*self));
        v
    }

    /// Every derived token was acquired.
    pub fn all_acquired(&self) -> (r: bool)
        ensures
            r == (self.skype_ok && self.graph_ok && self.ic3_ok && self.recorder_ok),
    {
        self.skype_ok && self.graph_ok && self.ic3_ok && self.recorder_ok
    }

    /// Record whether the token `token` was acquired; the other flags stay.
    pub fn record(&mut self, token: DerivedToken, ok: bool)
        ensures
            final(self).skype_ok == (if token == DerivedToken::Skype {
                ok
            } else {
                old(self).skype_ok
            }),
            final(self).graph_ok == (if token == DerivedToken::Graph {
                ok
            } else {
                old(self).graph_ok
            }),
            final(self).ic3_ok == (if token == DerivedToken::Ic3 {
                ok
            } else {
                old(self).ic3_ok
            }),
            final(self).recorder_ok == (if token == DerivedToken::Recorder {
                ok
            } else {
                old(self).recorder_ok
            }),
    {
        match token {
            DerivedToken::Skype => self.skype_ok = ok,
            DerivedToken::Graph => self.graph_ok = ok,
            DerivedToken::Ic3 => self.ic3_ok = ok,
            DerivedToken::Recorder => self.recorder_ok = ok,
        }
    }
}

/// The audience acquired after `after` (`None`: at the start): the Skype
/// token first; then Graph, IC3 and Recorder in turn, each only while a
/// non-empty refresh token is stored (`has_refresh`); then nothing.
pub open spec fn next_audience(after: Option<DerivedToken>, has_refresh: bool) -> Option<
    DerivedToken,
> {
    match after {
        None => Some(DerivedToken::Skype),
        Some(DerivedToken::Skype) => if has_refresh {
            Some(DerivedToken::Graph)
        } else {
            None
        },
        Some(DerivedToken::Graph) => if has_refresh {
            Some(DerivedToken::Ic3)
        } else {
            None
        },
        Some(DerivedToken::Ic3) => if has_refresh {
            Some(DerivedToken::Recorder)
        } else {
            None
        },
        Some(DerivedToken::Recorder) => None,
    }
}

/// A stored refresh token that can be exchanged: present and non-empty.
pub open spec fn usable_refresh(refresh: Option<String>) -> bool {
    refresh matches Some(t) && t@.len() > 0
}

/// The next derived token to acquire after `after` (`None` at the start),
/// given the refresh token stored now (see [`next_audience`]). Acquisition
/// never stops on a failure: each audience is tried in turn.
pub fn acquire_next(after: Option<DerivedToken>, refresh: &Option<String>) -> (r: Option<
    DerivedToken,
>)
    ensures
        r == next_audience(after, usable_refresh(*refresh)),
{
    let has_refresh = match refresh {
        Some(t) => !t.as_str().is_empty(),
        None => false,
    };
    match after {
        None => Some(DerivedToken::Skype),
        Some(DerivedToken::Skype) => if has_refresh {
            Some(DerivedToken::Graph)
        } else {
            None
        },
        Some(DerivedToken::Graph) => if has_refresh {
            Some(DerivedToken::Ic3)
        } else {
            None
        },
        Some(DerivedToken::Ic3) => if has_refresh {
            Some(DerivedToken::Recorder)
        } else {
            None
        },
        Some(DerivedToken::Recorder) => None,
    }
}

/// With a usable refresh token the audiences are acquired Skype, Graph, IC3,
/// Recorder, each once; without one only the Skype token is tried.
pub proof fn lemma_acquisition_order()
    ensures
        next_audience(None, true) == Some(DerivedToken::Skype),
        next_audience(Some(DerivedToken::Skype), true) == Some(DerivedToken::Graph),
        next_audience(Some(DerivedToken::Graph), true) == Some(DerivedToken::Ic3),
        next_audience(Some(DerivedToken::Ic3), true) == Some(DerivedToken::Recorder),
        next_audience(Some(DerivedToken::Recorder), true) is None,
        next_audience(None, false) == Some(DerivedToken::Skype),
        next_audience(Some(DerivedToken::Skype), false) is None,
{
}

/// `c` with the token of audience `t` set to `tok`.
pub open spec fn with_token(c: Credentials, t: DerivedToken, tok: StoredToken) -> Credentials {
    match t {
        DerivedToken::Skype => Credentials { skype_token: Some(tok), ..c },
        DerivedToken::Graph => Credentials { graph_token: Some(tok), ..c },
        DerivedToken::Ic3 => Credentials { ic3_token: Some(tok), ..c },
        DerivedToken::Recorder => Credentials { recorder_token: Some(tok), ..c },
    }
}

/// `r` with the flag of audience `t` set to `ok`.
pub open spec fn with_flag(r: AcquireReport, t: DerivedToken, ok: bool) -> AcquireReport {
    match t {
        DerivedToken::Skype => AcquireReport { skype_ok: ok, ..r },
        DerivedToken::Graph => AcquireReport { graph_ok: ok, ..r },
        DerivedToken::Ic3 => AcquireReport { ic3_ok: ok, ..r },
        DerivedToken::Recorder => AcquireReport { recorder_ok: ok, ..r },
    }
}

/// Record the outcome of acquiring the token of audience `token` at time
/// `now`: on success (`Some((secret, lifetime))`) the token is stored with
/// its absolute expiry and its flag set, and for the Skype token the
/// region document that came with it, if any, is stored too; on failure the
/// credentials stay as they are and the flag is cleared. The other flags
/// never change, so one failure never undoes another acquisition.
pub fn acquire_record(
    creds: &mut Credentials,
    report: &mut AcquireReport,
    token: DerivedToken,
    outcome: Option<(String, Option<u64>)>,
    region: Option<String>,
    now: u64,
)
    ensures
        *final(report) == with_flag(*old(report), token, outcome is Some),
        match outcome {
            None => *final(creds) == *old(creds),
            Some((secret, lifetime)) => {
                let stored = StoredToken {
                    token: secret,
                    expires_at: StoredToken::saturated_expiry(now, lifetime),
                };
                let c = with_token(*old(creds), token, stored);
                *final(creds) == (if token == DerivedToken::Skype && region is Some {
                    Credentials { region_gtms: region, ..c }
                } else {
                    c
                })
            },
        },
{
    report.record(token, outcome.is_some());
    match outcome {
        None => {},
        Some((secret, lifetime)) => {
            let expires_at = match lifetime {
                Some(secs) => Some(now.saturating_add(secs)),
                None => None,
            };
            let stored = StoredToken { token: secret, expires_at };
            match token {
                DerivedToken::Skype => {
                    creds.skype_token = Some(stored);
                    if region.is_some() {
                        creds.region_gtms = region;
                    }
                },
                DerivedToken::Graph => creds.graph_token = Some(stored),
                DerivedToken::Ic3 => creds.ic3_token = Some(stored),
                DerivedToken::Recorder => creds.recorder_token = Some(stored),
            }
        },
    }
}

/// `parts` joined with `sep` between consecutive parts.
pub open spec fn join_spec(parts: Seq<Seq<char>>, sep: Seq<char>) -> Seq<char>
    decreases parts.len(),
{
    if parts.len() == 0 {
        Seq::empty()
    } else if parts.len() == 1 {
        parts[0]
    } else {
        join_spec(parts.drop_last(), sep) + sep + parts.last()
    }
}

/// The closing line of a login: `Login successful.` when every derived token
/// was acquired, else `Login partially successful (missing: {labels}).` with
/// the missing labels joined by `, `.
pub open spec fn login_summary_spec(r: AcquireReport) -> Seq<char> {
    if r.skype_ok && r.graph_ok && r.ic3_ok && r.recorder_ok {
        "Login successful."@
    } else {
        "Login partially successful (missing: "@ + join_spec(missing_spec(r), ", "@) + ")."@
    }
}

/// The closing line of a login (see [`login_summary_spec`]).
pub fn login_summary(report: &AcquireReport) -> (r: String)
    ensures
        r@ == login_summary_spec(*report),
{
    if report.all_acquired() {
        return owned("Login successful.");
    }
    let missing = report.missing();
    let ghost parts = missing@.map_values(|s: &str| s@);
    let mut v = chars_of("Login partially successful (missing: ");
    let ghost start = v@;
    let mut i: usize = 0;
    while i < missing.len()
        invariant
            i <= missing@.len(),
            parts == missing@.map_values(|s: &str| s@),
            v@ == start + join_spec(parts.take(i as int), ", "@),
        decreases missing@.len() - i,
    {
        assert(parts.take(i + 1).drop_last() =~= parts.take(i as int));
        assert(parts.take(i + 1).last() == missing@[i as int]@);
        if i > 0 {
            push_str(&mut v, ", ");
        } else {
            assert(join_spec(parts.take(0), ", "@) =~= Seq::<char>::empty());
        }
        push_str(&mut v, missing[i]);
        i = i + 1;
        assert(v@ =~= start + join_spec(parts.take(i as int), ", "@));
    }
    assert(parts.take(i as int) =~= parts);
    push_str(&mut v, ").");
    string_from_chars(&v)
}

/// How a login begins.
#[derive(Debug, Clone, Copy, PartialEq, Eq)]
pub enum LoginStart {
    /// Sign in interactively with the device code flow.
    DeviceCode,
    /// The access token is live and nothing is missing: nothing to do.
    AlreadyLoggedIn,
    /// The access token is live but the IC3 or recorder token is missing and
    /// a refresh token is stored: refresh to acquire them.
    TopUp,
    /// The access token is expired and a refresh token is stored: refresh.
    Renew,
}

/// How a login begins at time `now`: a forced login, or one without an
/// access token, signs in interactively; with a live access token, a top-up
/// refresh when the IC3 or recorder token is missing and a refresh token is
/// stored, else nothing to do; with an expired one, a refresh when a refresh
/// token is stored, else an interactive sign-in.
pub fn login_start(force: bool, creds: &Credentials, now: u64) -> (r: LoginStart)
    ensures
        r == (if force {
            LoginStart::DeviceCode
        } else {
            match creds.access_token {
                None => LoginStart::DeviceCode,
                Some(t) => if !t.expired_at(now as int) {
                    if (creds.recorder_token is None || creds.ic3_token is None)
                        && creds.refresh_token is Some {
                        LoginStart::TopUp
                    } else {
                        LoginStart::AlreadyLoggedIn
                    }
                } else if creds.refresh_token is Some {
                    LoginStart::Renew
                } else {
                    LoginStart::DeviceCode
                },
            }
        }),
{
    if force {
        return LoginStart::DeviceCode;
    }
    match &creds.access_token {
        None => LoginStart::DeviceCode,
        Some(t) => {
            if !t.is_expired_at(now) {
                if (creds.recorder_token.is_none() || creds.ic3_token.is_none())
                    && creds.refresh_token.is_some() {
                    LoginStart::TopUp
                } else {
                    LoginStart::AlreadyLoggedIn
                }
            } else if creds.refresh_token.is_some() {
                LoginStart::Renew
            } else {
                LoginStart::DeviceCode
            }
        },
    }
}

/// What a login does next.
#[derive(Debug)]
pub enum LoginNext {
    /// The login is over: print the line.
    Done(String),
    /// Sign in interactively with the device code flow.
    DeviceCode,
}

/// What a login does after its start, given whether the refresh it made (if
/// any) renewed the tokens: a top-up ends either way, saying whether tokens
/// were refreshed; a renewal ends when it succeeded and otherwise falls back
/// to an interactive sign-in.
pub fn login_next(start: LoginStart, refreshed: bool) -> (r: LoginNext)
    ensures
        match start {
            LoginStart::DeviceCode => r is DeviceCode,
            LoginStart::AlreadyLoggedIn => r matches LoginNext::Done(m) && m@
                == "Already logged in (AAD token valid). Use --force to re-authenticate."@,
            LoginStart::TopUp => if refreshed {
                r matches LoginNext::Done(m) && m@
                    == "Tokens refreshed (acquired missing derived tokens)."@
            } else {
                r matches LoginNext::Done(m) && m@
                    == "Already logged in (AAD token valid). Use --force to re-authenticate."@
            },
            LoginStart::Renew => if refreshed {
                r matches LoginNext::Done(m) && m@ == "Token refreshed successfully."@
            } else {
                r is DeviceCode
            },
        },
{
    match start {
        LoginStart::DeviceCode => LoginNext::DeviceCode,
        LoginStart::AlreadyLoggedIn => LoginNext::Done(
            owned("Already logged in (AAD token valid). Use --force to re-authenticate."),
        ),
        LoginStart::TopUp => {
            if refreshed {
                LoginNext::Done(owned("Tokens refreshed (acquired missing derived tokens)."))
            } else {
                LoginNext::Done(
                    owned("Already logged in (AAD token valid). Use --force to re-authenticate."),
                )
            }
        },
        LoginStart::Renew => {
            if refreshed {
                LoginNext::Done(owned("Token refreshed successfully."))
            } else {
                LoginNext::DeviceCode
            }
        },
    }
}

/// The lines shown to a user signing in with a device code.
pub fn device_code_prompt(verification_url: &str, user_code: &str) -> (r: Vec<String>)
    ensures
        lines_of(r@) == seq![
            Seq::<char>::empty(),
            "To sign in, visit: "@ + verification_url@,
            "Enter code:        "@ + user_code@,
            Seq::<char>::empty(),
        ],
{
    let mut out: Vec<String> = Vec::new();
    push_line(&mut out, String::new());
    let mut v = chars_of("To sign in, visit: ");
    push_str(&mut v, verification_url);
    push_chars_line(&mut out, &v);
    let mut w = chars_of("Enter code:        ");
    push_str(&mut w, user_code);
    push_chars_line(&mut out, &w);
    push_line(&mut out, String::new());
    assert(lines_of(out@) =~= seq![
        Seq::<char>::empty(),
        "To sign in, visit: "@ + verification_url@,
        "Enter code:        "@ + user_code@,
        Seq::<char>::empty(),
    ]);
    out
}

/// The status lines of one token at time `now`: `{label}valid` and, when it
/// has an expiry, `  expires_at: {expiry}`; `{label}expired`; or
/// `{label}none`.
pub open spec fn token_status_spec(label: Seq<char>, t: Option<StoredToken>, now: int) -> Seq<
    Seq<char>,
> {
    match t {
        Some(tok) => if !tok.expired_at(now) {
            seq![label + "valid"@] + match tok.expires_at {
                Some(exp) => seq!["  expires_at: "@ + decimal(exp as nat)],
                None => Seq::empty(),
            }
        } else {
            seq![label + "expired"@]
        },
        None => seq![label + "none"@],
    }
}

/// The status report of the stored credentials at time `now`: each token in
/// turn (AAD, refresh, Graph, IC3, recorder, Skype), whether region
/// information is stored, and, without an access token, a hint to log in.
pub open spec fn status_spec(c: Credentials, now: int) -> Seq<Seq<char>> {
    token_status_spec("AAD token:   "@, c.access_token, now) + seq![
        if c.refresh_token is Some {
            "Refresh tok: present"@
        } else {
            "Refresh tok: none"@
        },
    ] + token_status_spec("Graph token: "@, c.graph_token, now) + token_status_spec(
        "IC3 token:   "@,
        c.ic3_token,
        now,
    ) + token_status_spec("Recorder tk: "@, c.recorder_token, now) + token_status_spec(
        "Skype token: "@,
        c.skype_token,
        now,
    ) + seq![
        if c.region_gtms is Some {
            "Region GTMs: present"@
        } else {
            "Region GTMs: none"@
        },
    ] + if c.access_token is None {
        seq![Seq::<char>::empty(), "Run 'teams-cli login' to authenticate."@]
    } else {
        Seq::empty()
    }
}

fn push_token_status(out: &mut Vec<String>, label: &str, t: &Option<StoredToken>, now: u64)
    ensures
        lines_of(final(out)@) == lines_of(old(out)@) + token_status_spec(label@, *t, now as int),
{
    let ghost before = lines_of(out@);
    match t {
        Some(tok) => {
            if !tok.is_expired_at(now) {
                let mut v = chars_of(label);
                push_str(&mut v, "valid");
                push_chars_line(out, &v);
                if let Some(exp) = tok.expires_at {
                    let mut w = chars_of("  expires_at: ");
                    push_decimal(&mut w, exp);
                    push_chars_line(out, &w);
                }
            } else {
                let mut v = chars_of(label);
                push_str(&mut v, "expired");
                push_chars_line(out, &v);
            }
        },
        None => {
            let mut v = chars_of(label);
            push_str(&mut v, "none");
            push_chars_line(out, &v);
        },
    }
    assert(lines_of(out@) =~= before + token_status_spec(label@, *t, now as int));
}

/// The status report of the stored credentials at time `now` (see
/// [`status_spec`]).
pub fn status_lines_at(creds: &Credentials, now: u64) -> (r: Vec<String>)
    ensures
        lines_of(r@) == status_spec(*creds, now as int),
{
    let mut out: Vec<String> = Vec::new();
    push_token_status(&mut out, "AAD token:   ", &creds.access_token, now);
    if creds.refresh_token.is_some() {
        push_line(&mut out, owned("Refresh tok: present"));
    } else {
        push_line(&mut out, owned("Refresh tok: none"));
    }
    push_token_status(&mut out, "Graph token: ", &creds.graph_token, now);
    push_token_status(&mut out, "IC3 token:   ", &creds.ic3_token, now);
    push_token_status(&mut out, "Recorder tk: ", &creds.recorder_token, now);
    push_token_status(&mut out, "Skype token: ", &creds.skype_token, now);
    if creds.region_gtms.is_some() {
        push_line(&mut out, owned("Region GTMs: present"));
    } else {
        push_line(&mut out, owned("Region GTMs: none"));
    }
    if creds.access_token.is_none() {
        push_line(&mut out, String::new());
        push_line(&mut out, owned("Run 'teams-cli login' to authenticate."));
    }
    assert(lines_of(out@) =~= status_spec(*creds, now as int));
    out
}

/// The status report of the stored credentials now, by the machine's clock:
/// the report of [`status_spec`] at the instant the clock was read.
pub fn status(creds: &Credentials) -> (r: Vec<String>)
    ensures
        exists|now: u64| lines_of(r@) == status_spec(*creds, now as int),
{
    let now = unix_now_secs();
    let r = status_lines_at(creds, now);
    assert(lines_of(r@) == status_spec(*creds, now as int));
    r
}

} // verus!
