//! The authentication use-case service over the token-store and
//! config-repository ports.
//!
//! Its central rule: when the access token is expired and no refresh token
//! is stored, the result is [`DomainError::TokenExpired`], after reading the
//! refresh token exactly once, with no retry.

use vstd::prelude::*;
use crate::error::{DomainError, DomainResult};
use crate::ports::{ConfigRepositoryPort, TokenStorePort};
use crate::text::owned;
use crate::token::{empty_credentials, unix_now_secs, Credentials, StoredToken};

verus! {

/// The state of the stored access token at a given time.
#[derive(Debug, Clone, Copy, PartialEq, Eq)]
pub enum AccessState {
    /// No access token is stored.
    Missing,
    /// An access token is stored but expired (refresh margin included).
    Expired,
    /// A live access token is stored.
    Valid,
}

/// Classify the stored access token at time `now` (Unix seconds).
pub fn access_state(access: &Option<StoredToken>, now: u64) -> (r: AccessState)
    ensures
        r == (match access {
            None => AccessState::Missing,
            Some(t) => if t.expired_at(now as int) {
                AccessState::Expired
            } else {
                AccessState::Valid
            },
        }),
{
    match access {
        None => AccessState::Missing,
        Some(t) => if t.is_expired_at(now) {
            AccessState::Expired
        } else {
            AccessState::Valid
        },
    }
}

/// The outcome of renewing the session from the stored refresh token: a
/// present refresh token renews it, an absent one leaves the session expired.
pub fn refresh_outcome(refresh_token: &Option<String>) -> (r: DomainResult<()>)
    ensures
        r is Ok <==> refresh_token is Some,
        r matches Err(e) ==> e matches DomainError::TokenExpired(m) && m@
            == "access token expired and no refresh token available"@,
{
    match refresh_token {
        Some(_) => Ok(()),
        None => Err(
            DomainError::TokenExpired(owned("access token expired and no refresh token available")),
        ),
    }
}

/// The error reported when no access token is stored.
pub fn unauthenticated_error() -> (e: DomainError)
    ensures
        e matches DomainError::Unauthenticated(m) && m@ == "no access token; run login"@,
{
    DomainError::Unauthenticated(owned("no access token; run login"))
}

/// The outcome of renewing the session with the refresh token `refresh`:
/// renewed when one is held, else `TokenExpired`.
pub open spec fn refresh_result(refresh: Option<String>, r: DomainResult<()>) -> bool {
    match refresh {
        Some(_) => r is Ok,
        None => r matches Err(e) && e matches DomainError::TokenExpired(m) && m@
            == "access token expired and no refresh token available"@,
    }
}

/// The status of a session with access token `access` and refresh token
/// `refresh` at time `now`: `Unauthenticated` without an access token, the
/// outcome of one refresh with an expired one, `Ok` with a live one.
pub open spec fn status_result(
    access: Option<StoredToken>,
    refresh: Option<String>,
    now: int,
    r: DomainResult<()>,
) -> bool {
    match access {
        None => r matches Err(e) && e matches DomainError::Unauthenticated(m) && m@
            == "no access token; run login"@,
        Some(t) => if t.expired_at(now) {
            refresh_result(refresh, r)
        } else {
            r is Ok
        },
    }
}

/// The session rule: with an expired access token and no refresh token,
/// the status is `TokenExpired`; with a live access token it is `Ok`
/// whatever else is stored.
pub proof fn lemma_expired_session_without_refresh(
    access: Option<StoredToken>,
    refresh: Option<String>,
    now: int,
    r: DomainResult<()>,
)
    requires
        status_result(access, refresh, now, r),
    ensures
        (access matches Some(t) && t.expired_at(now)) && refresh is None ==> (r matches Err(e)
            && e is TokenExpired),
        (access matches Some(t) && !t.expired_at(now)) ==> r is Ok,
        access is None ==> (r matches Err(e) && e is Unauthenticated),
{
}

/// Use-case service for authentication operations, over a token store and a
/// config repository.
pub struct AuthService<T: TokenStorePort, C: ConfigRepositoryPort> {
    tokens: T,
    config: C,
}

impl<T: TokenStorePort, C: ConfigRepositoryPort> AuthService<T, C> {
    pub closed spec fn token_store(&self) -> T {
        self.tokens
    }

    pub closed spec fn config_repository(&self) -> C {
        self.config
    }

    /// Construct an `AuthService` from the ports it depends on.
    pub fn new(tokens: T, config: C) -> (r: Self)
        ensures
            r.token_store() == tokens,
            r.config_repository() == config,
    {
        AuthService { tokens, config }
    }

    /// The token store the service reads and clears.
    pub fn tokens(&self) -> (r: &T)
        ensures
            *r == self.token_store(),
    {
        &self.tokens
    }

    /// Run `f` with shared access to the token store.
    pub fn with_tokens<R, F: FnOnce(&T) -> R>(&self, f: F) -> (r: R)
        requires
            f.requires((&self.token_store(),)),
        ensures
            f.ensures((&self.token_store(),), r),
    {
        f(&self.tokens)
    }

    /// Run `f` with exclusive access to the token store; the config
    /// repository is left as it is.
    pub fn with_tokens_mut<R, F: FnOnce(&mut T) -> R>(&mut self, f: F) -> (r: R)
        requires
            forall|t: &mut T| f.requires((t,)),
        ensures
            final(self).config_repository() == old(self).config_repository(),
            exists|t: &mut T|
                *t == old(self).token_store() && *final(t) == final(self).token_store() && f.ensures(
                    (t,),
                    r,
                ),
    {
        f(&mut self.tokens)
    }

    /// The config repository the service saves through.
    pub fn config(&self) -> (r: &C)
        ensures
            *r == self.config_repository(),
    {
        &self.config
    }

    /// Persist the credentials obtained from a login flow through the config
    /// repository: the result is the outcome of saving exactly `creds` there;
    /// a save failure surfaces as [`DomainError::Storage`].
    pub fn login(&self, creds: &Credentials) -> (r: DomainResult<()>)
        ensures
            self.config_repository().save_outcome(*creds, r),
            r matches Err(e) ==> e is Storage,
    {
        self.config.save(creds)
    }

    /// Log out: clear all stored token material, then persist the empty
    /// credentials aggregate; the result is the outcome of that save, and a
    /// save failure surfaces as [`DomainError::Storage`] (the tokens stay
    /// cleared).
    pub fn logout(&mut self) -> (r: DomainResult<()>)
        ensures
            old(self).config_repository().save_outcome(empty_credentials(), r),
            r matches Err(e) ==> e is Storage,
            final(self).config_repository() == old(self).config_repository(),
            final(self).token_store().held_access_token() is None,
            final(self).token_store().held_refresh_token() is None,
    {
        self.tokens.clear_tokens();
        let empty = Credentials::default();
        self.config.save(&empty)
    }

    /// Report whether the current session is usable: `Ok` with a live access
    /// token; [`DomainError::Unauthenticated`] without one; with an expired
    /// one, the outcome of a single [`refresh`](Self::refresh).
    pub fn status(&self) -> (r: DomainResult<()>)
        ensures
            exists|now: u64|
                status_result(
                    self.token_store().held_access_token(),
                    self.token_store().held_refresh_token(),
                    now as int,
                    r,
                ),
    {
        let access = self.tokens.get_access_token();
        let now = unix_now_secs();
        let r = match access_state(&access, now) {
            AccessState::Missing => Err(unauthenticated_error()),
            AccessState::Expired => self.refresh(),
            AccessState::Valid => Ok(()),
        };
        assert(status_result(
            self.token_store().held_access_token(),
            self.token_store().held_refresh_token(),
            now as int,
            r,
        ));
        r
    }

    /// Attempt to renew the session from the stored refresh token, which is
    /// read exactly once: present, the session is renewed; absent,
    /// [`DomainError::TokenExpired`], with no further retry.
    pub fn refresh(&self) -> (r: DomainResult<()>)
        ensures
            refresh_result(self.token_store().held_refresh_token(), r),
    {
        let refresh_token = self.tokens.get_refresh_token();
        refresh_outcome(&refresh_token)
    }
}

} // verus!
