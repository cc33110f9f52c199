//! Token expiry rules and the credentials aggregate.

use vstd::prelude::*;

verus! {

/// Seconds before the absolute expiry at which a token is already treated as
/// expired, leaving a margin for refreshing it.
pub const REFRESH_MARGIN_SECS: u64 = 300;

/// A stored access token with an optional absolute expiry (Unix seconds).
#[derive(Debug, Clone)]
pub struct StoredToken {
    pub token: String,
    pub expires_at: Option<u64>,
}

/// The current time in whole seconds since the Unix epoch
/// (`UNIX_EPOCH.elapsed()`); a clock set before the epoch reads as 0.
/// Nothing is promised of the value: it is the machine's clock.
#[verifier::external_body]
pub(crate) fn unix_now_secs() -> u64 {
    match std::time::UNIX_EPOCH.elapsed() {
        Ok(d) => d.as_secs(),
        Err(_) => 0,
    }
}

impl StoredToken {
    /// The token is expired at `now`: less than the refresh margin remains
    /// before its absolute expiry. A token with no expiry never expires.
    pub open spec fn expired_at(self, now: int) -> bool {
        match self.expires_at {
            Some(exp) => exp - now < REFRESH_MARGIN_SECS,
            None => false,
        }
    }

    /// The absolute expiry of a token issued at `now` with lifetime `expires_in_secs`.
    pub open spec fn expiry_from(now: int, expires_in_secs: Option<u64>) -> Option<u64> {
        match expires_in_secs {
            Some(secs) => Some((now + secs) as u64),
            None => None,
        }
    }

    /// Build a token issued at `now` (Unix seconds), turning a relative
    /// lifetime into an absolute expiry.
    pub fn new_at(token: String, expires_in_secs: Option<u64>, now: u64) -> (r: StoredToken)
        requires
            expires_in_secs matches Some(secs) ==> now + secs <= u64::MAX,
        ensures
            r.token == token,
            r.expires_at == Self::expiry_from(now as int, expires_in_secs),
    {
        let expires_at = match expires_in_secs {
            Some(secs) => Some(now + secs),
            None => None,
        };
        StoredToken { token, expires_at }
    }

    /// The absolute expiry of a token issued at `now` with lifetime
    /// `expires_in_secs`, held at `u64::MAX` past the end of the clock's range.
    pub open spec fn saturated_expiry(now: u64, expires_in_secs: Option<u64>) -> Option<u64> {
        match expires_in_secs {
            Some(secs) => Some(
                if now + secs > u64::MAX {
                    u64::MAX
                } else {
                    (now + secs) as u64
                },
            ),
            None => None,
        }
    }

    /// Build a token, converting a relative lifetime into an absolute expiry
    /// against the current time read from the machine's clock. An expiry
    /// past the end of the clock's range is held at `u64::MAX`.
    pub fn new(token: String, expires_in_secs: Option<u64>) -> (r: StoredToken)
        ensures
            r.token == token,
            exists|now: u64| r.expires_at == Self::saturated_expiry(now, expires_in_secs),
            r.expires_at is Some <==> expires_in_secs is Some,
            expires_in_secs matches Some(secs) ==> r.expires_at->0 >= secs,
    {
        let now = unix_now_secs();
        let expires_at = match expires_in_secs {
            Some(secs) => Some(now.saturating_add(secs)),
            None => None,
        };
        assert(expires_at == Self::saturated_expiry(now, expires_in_secs));
        StoredToken { token, expires_at }
    }

    /// Pure expiry rule evaluated against a supplied reference time (Unix
    /// seconds): expired when less than five minutes remain before the
    /// absolute expiry; never expired without an expiry.
    pub fn is_expired_at(&self, now: u64) -> (r: bool)
        ensures
            r == self.expired_at(now as int),
    {
        match self.expires_at {
            Some(exp) => exp <= now || exp - now < REFRESH_MARGIN_SECS,
            None => false,
        }
    }

    /// A copy of the token.
    pub fn copy(&self) -> (r: StoredToken)
        ensures
            r.token@ == self.token@,
            r.expires_at == self.expires_at,
    {
        StoredToken { token: crate::text::owned(self.token.as_str()), expires_at: self.expires_at }
    }

    /// Whether the token is expired now, by the machine's clock.
    pub fn is_expired(&self) -> (r: bool)
        ensures
            exists|now: u64| r == self.expired_at(now as int),
            self.expires_at is None ==> !r,
            self.expires_at matches Some(exp) && exp < REFRESH_MARGIN_SECS ==> r,
    {
        let now = unix_now_secs();
        let r = self.is_expired_at(now);
        assert(r == self.expired_at(now as int));
        r
    }
}

/// Once a token is expired at some instant, it stays expired at every later
/// instant: as time advances a token can go from live to expired, never back.
pub proof fn lemma_expiry_is_monotonic(token: StoredToken, earlier: int, later: int)
    requires
        earlier <= later,
        token.expired_at(earlier),
    ensures
        token.expired_at(later),
{
}

/// A token with no absolute expiry is never expired, at any time.
pub proof fn lemma_no_expiry_never_expires(token: StoredToken, now: int)
    requires
        token.expires_at is None,
    ensures
        !token.expired_at(now),
{
}

/// Credentials aggregate: all token material and regional metadata for a
/// logged-in identity.
#[derive(Debug, Clone)]
pub struct Credentials {
    pub access_token: Option<StoredToken>,
    pub refresh_token: Option<String>,
    pub skype_token: Option<StoredToken>,
    pub graph_token: Option<StoredToken>,
    pub ic3_token: Option<StoredToken>,
    pub recorder_token: Option<StoredToken>,
    pub tenant_id: Option<String>,
    pub region_gtms: Option<String>,
}

impl Credentials {
    /// The aggregate holds nothing at all.
    pub open spec fn is_empty(&self) -> bool {
        &&& self.access_token is None
        &&& self.refresh_token is None
        &&& self.skype_token is None
        &&& self.graph_token is None
        &&& self.ic3_token is None
        &&& self.recorder_token is None
        &&& self.tenant_id is None
        &&& self.region_gtms is None
    }
}

/// The empty aggregate: every field unset.
pub open spec fn empty_credentials() -> Credentials {
    Credentials {
        access_token: None,
        refresh_token: None,
        skype_token: None,
        graph_token: None,
        ic3_token: None,
        recorder_token: None,
        tenant_id: None,
        region_gtms: None,
    }
}

impl Default for Credentials {
    /// The empty aggregate: every field unset.
    fn default() -> (r: Credentials)
        ensures
            r.is_empty(),
            r == empty_credentials(),
    {
        Credentials {
            access_token: None,
            refresh_token: None,
            skype_token: None,
            graph_token: None,
            ic3_token: None,
            recorder_token: None,
            tenant_id: None,
            region_gtms: None,
        }
    }
}

} // verus!
