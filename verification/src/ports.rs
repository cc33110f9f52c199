//! Ports: the synchronous storage needs of the application, in domain terms.
//! Adapters implement them; the services are generic over them.

use vstd::prelude::*;
use crate::error::{DomainError, DomainResult};
use crate::text::owned;
use crate::token::{Credentials, StoredToken};

verus! {

/// Persistence of the credentials aggregate: load and save.
pub trait ConfigRepositoryPort {
    /// Load the persisted credentials; a store that holds nothing yet yields
    /// the empty aggregate rather than an error.
    fn load(&self) -> DomainResult<Credentials>;

    /// `r` is a possible outcome of persisting `creds` to this repository,
    /// as the adapter describes its store.
    spec fn save_outcome(&self, creds: Credentials, r: DomainResult<()>) -> bool;

    /// Persist the given credentials durably. On failure the adapter returns
    /// [`DomainError::Storage`] and leaves previously persisted content
    /// unchanged.
    fn save(&self, creds: &Credentials) -> (r: DomainResult<()>)
        ensures
            self.save_outcome(*creds, r),
            r matches Err(e) ==> e is Storage,
    ;
}

/// `copy` is a copy of the stored token `held`.
pub open spec fn token_copy(copy: Option<StoredToken>, held: Option<StoredToken>) -> bool {
    match held {
        Some(x) => copy matches Some(y) && y.token@ == x.token@ && y.expires_at == x.expires_at,
        None => copy is None,
    }
}

/// Storage for the six token types an authenticated identity holds: the AAD
/// access token, its refresh token, and the Skype, Graph, IC3 and recorder
/// tokens. `get_*` return the stored token (if any); `set_*` store a token,
/// turning a relative lifetime into an absolute expiry; `clear_tokens` drops
/// them all.
pub trait TokenStorePort {
    /// The access token the store holds.
    spec fn held_access_token(&self) -> Option<StoredToken>;

    /// The refresh token the store holds.
    spec fn held_refresh_token(&self) -> Option<String>;

    fn get_access_token(&self) -> (r: Option<StoredToken>)
        ensures
            token_copy(r, self.held_access_token()),
    ;

    fn set_access_token(&mut self, token: String, expires_in: Option<u64>);

    fn get_refresh_token(&self) -> (r: Option<String>)
        ensures
            match r {
                Some(t) => self.held_refresh_token() matches Some(h) && h@ == t@,
                None => self.held_refresh_token() is None,
            },
    ;

    fn set_refresh_token(&mut self, token: String);

    fn get_skype_token(&self) -> Option<StoredToken>;

    fn set_skype_token(&mut self, token: String, expires_in: Option<u64>);

    fn get_graph_token(&self) -> Option<StoredToken>;

    fn set_graph_token(&mut self, token: String, expires_in: Option<u64>);

    fn get_ic3_token(&self) -> Option<StoredToken>;

    fn set_ic3_token(&mut self, token: String, expires_in: Option<u64>);

    fn get_recorder_token(&self) -> Option<StoredToken>;

    fn set_recorder_token(&mut self, token: String, expires_in: Option<u64>);

    /// Drop all stored token material.
    fn clear_tokens(&mut self)
        ensures
            final(self).held_access_token() is None,
            final(self).held_refresh_token() is None,
    ;
}

/// A copy of an optional stored token.
fn copy_token(t: &Option<StoredToken>) -> (r: Option<StoredToken>)
    ensures
        match *t {
            Some(x) => r matches Some(y) && y.token@ == x.token@ && y.expires_at == x.expires_at,
            None => r is None,
        },
{
    match t {
        Some(x) => Some(x.copy()),
        None => None,
    }
}

/// A stored token `t` is the token `token` issued with lifetime
/// `expires_in`: it expires exactly when a lifetime is given, no earlier
/// than that lifetime.
pub open spec fn issued(t: Option<StoredToken>, token: String, expires_in: Option<u64>) -> bool {
    t matches Some(x) && x.token == token && (x.expires_at is Some <==> expires_in is Some) && (
    expires_in matches Some(secs) ==> x.expires_at->0 >= secs)
}

/// The credentials aggregate is itself a token store: each getter returns a
/// copy of the stored token, each setter stores a token issued now.
impl TokenStorePort for Credentials {
    open spec fn held_access_token(&self) -> Option<StoredToken> {
        self.access_token
    }

    open spec fn held_refresh_token(&self) -> Option<String> {
        self.refresh_token
    }

    fn get_access_token(&self) -> (r: Option<StoredToken>)
        ensures
            match self.access_token {
                Some(x) => r matches Some(y) && y.token@ == x.token@ && y.expires_at
                    == x.expires_at,
                None => r is None,
            },
    {
        copy_token(&self.access_token)
    }

    fn set_access_token(&mut self, token: String, expires_in: Option<u64>)
        ensures
            issued(final(self).access_token, token, expires_in),
            final(self).refresh_token == old(self).refresh_token,
    {
        self.access_token = Some(StoredToken::new(token, expires_in));
    }

    fn get_refresh_token(&self) -> (r: Option<String>)
        ensures
            match self.refresh_token {
                Some(x) => r matches Some(y) && y@ == x@,
                None => r is None,
            },
    {
        match &self.refresh_token {
            Some(t) => Some(owned(t.as_str())),
            None => None,
        }
    }

    fn set_refresh_token(&mut self, token: String)
        ensures
            final(self).refresh_token == Some(token),
            final(self).access_token == old(self).access_token,
    {
        self.refresh_token = Some(token);
    }

    fn get_skype_token(&self) -> (r: Option<StoredToken>)
        ensures
            match self.skype_token {
                Some(x) => r matches Some(y) && y.token@ == x.token@ && y.expires_at
                    == x.expires_at,
                None => r is None,
            },
    {
        copy_token(&self.skype_token)
    }

    fn set_skype_token(&mut self, token: String, expires_in: Option<u64>)
        ensures
            issued(final(self).skype_token, token, expires_in),
    {
        self.skype_token = Some(StoredToken::new(token, expires_in));
    }

    fn get_graph_token(&self) -> (r: Option<StoredToken>)
        ensures
            match self.graph_token {
                Some(x) => r matches Some(y) && y.token@ == x.token@ && y.expires_at
                    == x.expires_at,
                None => r is None,
            },
    {
        copy_token(&self.graph_token)
    }

    fn set_graph_token(&mut self, token: String, expires_in: Option<u64>)
        ensures
            issued(final(self).graph_token, token, expires_in),
    {
        self.graph_token = Some(StoredToken::new(token, expires_in));
    }

    fn get_ic3_token(&self) -> (r: Option<StoredToken>)
        ensures
            match self.ic3_token {
                Some(x) => r matches Some(y) && y.token@ == x.token@ && y.expires_at
                    == x.expires_at,
                None => r is None,
            },
    {
        copy_token(&self.ic3_token)
    }

    fn set_ic3_token(&mut self, token: String, expires_in: Option<u64>)
        ensures
            issued(final(self).ic3_token, token, expires_in),
    {
        self.ic3_token = Some(StoredToken::new(token, expires_in));
    }

    fn get_recorder_token(&self) -> (r: Option<StoredToken>)
        ensures
            match self.recorder_token {
                Some(x) => r matches Some(y) && y.token@ == x.token@ && y.expires_at
                    == x.expires_at,
                None => r is None,
            },
    {
        copy_token(&self.recorder_token)
    }

    fn set_recorder_token(&mut self, token: String, expires_in: Option<u64>)
        ensures
            issued(final(self).recorder_token, token, expires_in),
    {
        self.recorder_token = Some(StoredToken::new(token, expires_in));
    }

    /// Drops the six tokens; the tenant and region stay.
    fn clear_tokens(&mut self)
        ensures
            final(self).access_token is None,
            final(self).refresh_token is None,
            final(self).skype_token is None,
            final(self).graph_token is None,
            final(self).ic3_token is None,
            final(self).recorder_token is None,
            final(self).tenant_id == old(self).tenant_id,
            final(self).region_gtms == old(self).region_gtms,
    {
        self.access_token = None;
        self.refresh_token = None;
        self.skype_token = None;
        self.graph_token = None;
        self.ic3_token = None;
        self.recorder_token = None;
    }
}

} // verus!
