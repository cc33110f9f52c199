use std::cell::{Cell, RefCell};

use teams_cli::auth_service::{access_state, refresh_outcome, AccessState, AuthService};
use teams_cli::error::{DomainError, DomainResult};
use teams_cli::ports::{ConfigRepositoryPort, TokenStorePort};
use teams_cli::token::{Credentials, StoredToken};

/// Fake token store recording how many times the refresh token was read.
#[derive(Default)]
struct FakeTokenStore {
    access_token: Option<StoredToken>,
    refresh_token: Option<String>,
    cleared: bool,
    refresh_reads: Cell<usize>,
}

impl TokenStorePort for FakeTokenStore {
    fn held_access_token(&self) -> Option<StoredToken> {
        self.access_token.clone()
    }
    fn held_refresh_token(&self) -> Option<String> {
        self.refresh_token.clone()
    }
    fn get_access_token(&self) -> Option<StoredToken> {
        self.access_token.clone()
    }
    fn set_access_token(&mut self, token: String, expires_in: Option<u64>) {
        self.access_token = Some(StoredToken::new(token, expires_in));
    }
    fn get_refresh_token(&self) -> Option<String> {
        self.refresh_reads.set(self.refresh_reads.get() + 1);
        self.refresh_token.clone()
    }
    fn set_refresh_token(&mut self, token: String) {
        self.refresh_token = Some(token);
    }
    fn get_skype_token(&self) -> Option<StoredToken> {
        None
    }
    fn set_skype_token(&mut self, _token: String, _expires_in: Option<u64>) {}
    fn get_graph_token(&self) -> Option<StoredToken> {
        None
    }
    fn set_graph_token(&mut self, _token: String, _expires_in: Option<u64>) {}
    fn get_ic3_token(&self) -> Option<StoredToken> {
        None
    }
    fn set_ic3_token(&mut self, _token: String, _expires_in: Option<u64>) {}
    fn get_recorder_token(&self) -> Option<StoredToken> {
        None
    }
    fn set_recorder_token(&mut self, _token: String, _expires_in: Option<u64>) {}
    fn clear_tokens(&mut self) {
        self.cleared = true;
        self.access_token = None;
        self.refresh_token = None;
    }
}

/// Fake config repository recording the last saved credentials and able to
/// simulate a persistence failure.
#[derive(Default)]
struct FakeConfigRepo {
    saved: RefCell<Option<Credentials>>,
    fail_save: bool,
    save_calls: Cell<usize>,
}

impl ConfigRepositoryPort for FakeConfigRepo {
    fn save_outcome(&self, _creds: Credentials, r: DomainResult<()>) -> bool {
        r.is_ok() != self.fail_save
    }
    fn load(&self) -> DomainResult<Credentials> {
        Ok(Credentials::default())
    }
    fn save(&self, creds: &Credentials) -> DomainResult<()> {
        self.save_calls.set(self.save_calls.get() + 1);
        if self.fail_save {
            return Err(DomainError::Storage("simulated persistence failure".to_string()));
        }
        *self.saved.borrow_mut() = Some(creds.clone());
        Ok(())
    }
}

fn expired_token() -> StoredToken {
    StoredToken { token: "old".to_string(), expires_at: Some(0) }
}

#[test]
fn refresh_with_no_refresh_token_returns_token_expired_and_reads_once() {
    let svc = AuthService::new(
        FakeTokenStore { refresh_token: None, ..Default::default() },
        FakeConfigRepo::default(),
    );
    let result = svc.refresh();
    assert!(matches!(result, Err(DomainError::TokenExpired(_))), "expected TokenExpired, got {result:?}");
    let reads = svc.tokens().refresh_reads.get();
    assert_eq!(reads, 1, "refresh must be attempted at most once, got {reads}");
}

#[test]
fn status_with_expired_token_and_no_refresh_returns_token_expired_no_retry() {
    let svc = AuthService::new(
        FakeTokenStore { access_token: Some(expired_token()), refresh_token: None, ..Default::default() },
        FakeConfigRepo::default(),
    );
    let result = svc.status();
    assert!(matches!(result, Err(DomainError::TokenExpired(_))), "expected TokenExpired, got {result:?}");
    let reads = svc.tokens().refresh_reads.get();
    assert_eq!(reads, 1, "refresh must be attempted at most once, got {reads}");
}

#[test]
fn status_with_no_access_token_is_unauthenticated() {
    let svc = AuthService::new(FakeTokenStore::default(), FakeConfigRepo::default());
    let result = svc.status();
    assert!(matches!(result, Err(DomainError::Unauthenticated(_))), "expected Unauthenticated, got {result:?}");
}

#[test]
fn status_with_valid_token_is_ok() {
    let svc = AuthService::new(
        FakeTokenStore { access_token: Some(StoredToken::new("fresh".to_string(), Some(3600))), ..Default::default() },
        FakeConfigRepo::default(),
    );
    assert!(svc.status().is_ok());
}

#[test]
fn refresh_with_present_refresh_token_is_ok() {
    let svc = AuthService::new(
        FakeTokenStore { refresh_token: Some("refresh-abc".to_string()), ..Default::default() },
        FakeConfigRepo::default(),
    );
    assert!(svc.refresh().is_ok());
}

#[test]
fn logout_clears_tokens_and_saves_default_credentials() {
    let mut svc = AuthService::new(
        FakeTokenStore {
            access_token: Some(StoredToken::new("a".to_string(), Some(3600))),
            refresh_token: Some("r".to_string()),
            ..Default::default()
        },
        FakeConfigRepo::default(),
    );
    let result = svc.logout();
    assert!(result.is_ok());
    assert!(svc.tokens().cleared, "tokens should be cleared");
    let saved = svc.config().saved.borrow();
    let saved = saved.as_ref().expect("credentials should have been saved");
    assert!(saved.access_token.is_none());
    assert!(saved.refresh_token.is_none());
}

#[test]
fn logout_maps_save_failure_to_storage_error() {
    let mut svc = AuthService::new(
        FakeTokenStore::default(),
        FakeConfigRepo { fail_save: true, ..Default::default() },
    );
    let result = svc.logout();
    assert!(matches!(result, Err(DomainError::Storage(_))), "expected Storage error, got {result:?}");
}

#[test]
fn login_persists_credentials() {
    let svc = AuthService::new(FakeTokenStore::default(), FakeConfigRepo::default());
    let mut creds = Credentials::default();
    creds.refresh_token = Some("saved-refresh".to_string());
    assert!(svc.login(&creds).is_ok());
    let saved = svc.config().saved.borrow();
    let saved = saved.as_ref().expect("credentials should have been saved");
    assert_eq!(saved.refresh_token.as_deref(), Some("saved-refresh"));
}

#[test]
fn login_maps_save_failure_to_storage_error() {
    let svc = AuthService::new(
        FakeTokenStore::default(),
        FakeConfigRepo { fail_save: true, ..Default::default() },
    );
    let result = svc.login(&Credentials::default());
    assert!(matches!(result, Err(DomainError::Storage(_))), "expected Storage error, got {result:?}");
}

#[test]
fn status_with_expired_token_and_refresh_token_is_ok_after_one_read() {
    let svc = AuthService::new(
        FakeTokenStore { access_token: Some(expired_token()), refresh_token: Some("r".into()), ..Default::default() },
        FakeConfigRepo::default(),
    );
    assert!(svc.status().is_ok());
    assert_eq!(svc.tokens().refresh_reads.get(), 1);
    assert_eq!(svc.config().save_calls.get(), 0);
}

#[test]
fn access_state_and_refresh_outcome_decide_exactly() {
    assert_eq!(access_state(&None, 100), AccessState::Missing);
    let t = Some(StoredToken { token: "x".into(), expires_at: Some(1_000) });
    assert_eq!(access_state(&t, 700), AccessState::Valid);
    assert_eq!(access_state(&t, 701), AccessState::Expired);
    assert!(refresh_outcome(&Some("r".into())).is_ok());
    match refresh_outcome(&None) {
        Err(DomainError::TokenExpired(m)) => {
            assert_eq!(m, "access token expired and no refresh token available")
        }
        other => panic!("expected TokenExpired, got {other:?}"),
    }
}

#[test]
fn credentials_are_a_token_store() {
    let mut creds = Credentials::default();
    creds.set_access_token("a".into(), Some(3600));
    creds.set_refresh_token("r".into());
    creds.set_graph_token("g".into(), None);
    assert_eq!(creds.get_access_token().unwrap().token, "a");
    assert!(creds.get_access_token().unwrap().expires_at.is_some());
    assert_eq!(creds.get_refresh_token().as_deref(), Some("r"));
    assert_eq!(creds.get_graph_token().unwrap().expires_at, None);
    creds.region_gtms = Some("{}".into());
    creds.clear_tokens();
    assert!(creds.get_access_token().is_none());
    assert!(creds.get_refresh_token().is_none());
    assert!(creds.get_graph_token().is_none());
    assert_eq!(creds.region_gtms.as_deref(), Some("{}"));
}

#[test]
fn token_store_is_reachable_through_the_service() {
    let mut svc = AuthService::new(
        FakeTokenStore { refresh_token: Some("r".into()), ..Default::default() },
        FakeConfigRepo::default(),
    );
    let rt = svc.with_tokens(|store| store.get_refresh_token());
    assert_eq!(rt.as_deref(), Some("r"));
    svc.with_tokens_mut(|store| store.set_refresh_token("s".into()));
    assert_eq!(svc.tokens().refresh_token.as_deref(), Some("s"));
}
