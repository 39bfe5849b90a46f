use blog_backend::flow::{callback, ProviderReplies};
use blog_backend::login::{answer, begin_login, request, LoginAnswer};
use blog_backend::oauth::{AuthRequest, OAuthConfig, TokenResponse, UserError, UserResponse};
use blog_backend::outcome::{CallbackFailure, CallbackOutcome, ErrorKind, StoreFailure, TokenError};
use blog_backend::session::EphemeralSession;
use blog_backend::state_hash::{hash, verify, HashError};
use blog_backend::store::AccountStore;
use blog_backend::user::{get_account_from_session, Account, Session};

fn config() -> OAuthConfig {
    OAuthConfig::new(
        "client".to_string(),
        "secret".to_string(),
        "http://127.0.0.1:3001/callback".to_string(),
    )
}

fn replies(id: u64) -> ProviderReplies {
    ProviderReplies {
        token: Ok(TokenResponse {
            access_token: "gho_x".to_string(),
            scope: String::new(),
            token_type: "bearer".to_string(),
        }),
        profile: Ok(UserResponse {
            login: Some("ada".to_string()),
            id,
            name: Some("Ada".to_string()),
            email: Some("ada@example.org".to_string()),
        }),
    }
}

fn state_in(url: &str) -> String {
    let start = url.find("&state=").unwrap() + "&state=".len();
    let rest = &url[start..];
    rest[..rest.find('&').unwrap()].to_string()
}

fn login(record: &mut EphemeralSession, store: &mut AccountStore, id: u64) -> CallbackOutcome {
    let url = request(record, &config()).unwrap();
    let info = AuthRequest { state: state_in(&url), code: "code".to_string() };
    callback(record, store, &replies(id), &info, &config())
}

fn handles(account: &Account) -> Vec<String> {
    account.sessions.iter().map(|s| s.session_id.clone()).collect()
}

#[test]
fn login_initiator_stores_the_digest_and_sends_the_plaintext() {
    let mut record = EphemeralSession::new();
    let url = request(&mut record, &config()).unwrap();
    let prefix = "https://github.com/login/oauth/authorize?client_id=client&state=";
    let suffix = "&redirect_uri=http://127.0.0.1:3001/callback";
    assert!(url.starts_with(prefix));
    assert!(url.ends_with(suffix));
    let state = &url[prefix.len()..url.len() - suffix.len()];
    assert_eq!(state.len(), 30);
    assert!(state.chars().all(|c| c.is_ascii_alphanumeric()));

    let digest = record.auth.clone().unwrap();
    assert_ne!(digest, state);
    assert!(verify(state, &digest));
    assert!(!url.contains(&digest));
    assert!(record.session.is_none());
    assert!(record.uuid.is_none());
    assert!(record.provider_id.is_none());
}

#[test]
fn login_initiator_keeps_a_completed_login() {
    let mut record = EphemeralSession::new();
    record.bind("s".to_string(), "u".to_string(), 3);
    request(&mut record, &config()).unwrap();
    assert!(record.auth.is_some());
    assert_eq!(record.session.as_deref(), Some("s"));
    assert_eq!(record.uuid.as_deref(), Some("u"));
    assert_eq!(record.provider_id, Some(3));
}

#[test]
fn each_login_issues_its_own_state() {
    let mut record = EphemeralSession::new();
    let first = request(&mut record, &config()).unwrap();
    let first_digest = record.auth.clone().unwrap();
    let second = request(&mut record, &config()).unwrap();
    assert_ne!(state_in(&first), state_in(&second));
    assert_ne!(record.auth.clone().unwrap(), first_digest);
    assert!(verify(&state_in(&second), record.auth.as_deref().unwrap()));
    assert!(!verify(&state_in(&first), record.auth.as_deref().unwrap()));
}

#[test]
fn begin_login_stores_the_given_digest() {
    let mut record = EphemeralSession::new();
    let url = begin_login(&mut record, &config(), "PLAIN", "DIGEST".to_string());
    assert_eq!(record.auth.as_deref(), Some("DIGEST"));
    assert_eq!(
        url,
        "https://github.com/login/oauth/authorize?client_id=client&state=PLAIN\
         &redirect_uri=http://127.0.0.1:3001/callback"
    );
}

#[test]
fn callback_with_wrong_state_is_a_verification_failure() {
    let mut record = EphemeralSession::new();
    let mut store = AccountStore::new();
    request(&mut record, &config()).unwrap();
    let info = AuthRequest { state: "not-the-state".to_string(), code: "code".to_string() };
    let outcome = callback(&mut record, &mut store, &replies(42), &info, &config());
    assert_eq!(outcome, CallbackOutcome::Failed(CallbackFailure::VerificationFailed));
    assert_eq!(CallbackFailure::VerificationFailed.kind(), ErrorKind::VerificationFailure);
    assert!(record.auth.is_none());
    assert!(record.session.is_none());
    assert!(record.uuid.is_none());
    assert!(record.provider_id.is_none());
    assert_eq!(store.len(), 0);
}

#[test]
fn callback_with_wrong_state_spends_the_pending_login() {
    let mut record = EphemeralSession::new();
    let mut store = AccountStore::new();
    let url = request(&mut record, &config()).unwrap();
    let wrong = AuthRequest { state: "not-the-state".to_string(), code: "code".to_string() };
    callback(&mut record, &mut store, &replies(42), &wrong, &config());
    let right = AuthRequest { state: state_in(&url), code: "code".to_string() };
    let outcome = callback(&mut record, &mut store, &replies(42), &right, &config());
    assert_eq!(outcome, CallbackOutcome::Failed(CallbackFailure::AuthMissing));
    assert_eq!(store.len(), 0);
}

#[test]
fn callback_without_pending_login_is_a_verification_failure() {
    let mut record = EphemeralSession::new();
    let mut store = AccountStore::new();
    let info = AuthRequest { state: "anything".to_string(), code: "code".to_string() };
    let outcome = callback(&mut record, &mut store, &replies(42), &info, &config());
    assert_eq!(outcome, CallbackOutcome::Failed(CallbackFailure::AuthMissing));
    assert_eq!(CallbackFailure::AuthMissing.kind(), ErrorKind::VerificationFailure);
    assert_eq!(store.len(), 0);
}

#[test]
fn callback_with_empty_digest_is_a_verification_failure() {
    let mut record = EphemeralSession::new();
    record.insert_auth(String::new());
    let mut store = AccountStore::new();
    let info = AuthRequest { state: String::new(), code: "code".to_string() };
    let outcome = callback(&mut record, &mut store, &replies(42), &info, &config());
    assert_eq!(outcome, CallbackOutcome::Failed(CallbackFailure::VerificationFailed));
    assert!(record.auth.is_none());
}

#[test]
fn first_login_creates_one_account_with_one_session() {
    let mut record = EphemeralSession::new();
    let mut store = AccountStore::new();
    assert_eq!(login(&mut record, &mut store, 42), CallbackOutcome::Authenticated);

    assert_eq!(store.len(), 1);
    let account = &store.accounts()[0];
    assert_eq!(account.github_id, 42);
    assert!(!account.elevated);
    assert_eq!(account.name.as_deref(), Some("Ada"));
    assert_eq!(account.email.as_deref(), Some("ada@example.org"));
    assert_eq!(account.uuid.len(), 36);
    assert_eq!(account.sessions.len(), 1);
    assert_eq!(account.sessions[0].session_id.len(), 64);

    assert!(record.auth.is_none());
    assert_eq!(record.session.as_deref(), Some(account.sessions[0].session_id.as_str()));
    assert_eq!(record.uuid.as_deref(), Some(account.uuid.as_str()));
    assert_eq!(record.provider_id, Some(42));
}

#[test]
fn second_login_from_another_device_adds_one_session() {
    let mut store = AccountStore::new();
    let mut laptop = EphemeralSession::new();
    assert_eq!(login(&mut laptop, &mut store, 42), CallbackOutcome::Authenticated);
    let first = store.accounts()[0].sessions[0].session_id.clone();
    let uuid = store.accounts()[0].uuid.clone();

    let mut phone = EphemeralSession::new();
    assert_eq!(login(&mut phone, &mut store, 42), CallbackOutcome::Authenticated);

    assert_eq!(store.len(), 1);
    assert_eq!(store.accounts()[0].uuid, uuid);
    assert_eq!(store.accounts()[0].sessions.len(), 2);
    assert_eq!(store.accounts()[0].sessions[0].session_id, first);
    let second = store.accounts()[0].sessions[1].session_id.clone();
    assert_ne!(first, second);
    assert_eq!(phone.session.as_deref(), Some(second.as_str()));
    assert_eq!(phone.uuid.as_deref(), Some(uuid.as_str()));

    assert_eq!(get_account_from_session(&store, &laptop).unwrap().uuid, uuid);
    assert_eq!(get_account_from_session(&store, &phone).unwrap().uuid, uuid);
}

#[test]
fn logins_of_two_identities_keep_apart() {
    let mut store = AccountStore::new();
    let mut ada = EphemeralSession::new();
    let mut bob = EphemeralSession::new();
    login(&mut ada, &mut store, 1);
    login(&mut bob, &mut store, 2);
    assert_eq!(store.len(), 2);
    assert_eq!(store.accounts()[0].sessions.len(), 1);
    assert_eq!(store.accounts()[1].sessions.len(), 1);
    assert_eq!(get_account_from_session(&store, &ada).unwrap().github_id, 1);
    assert_eq!(get_account_from_session(&store, &bob).unwrap().github_id, 2);

    let forged = EphemeralSession {
        auth: None,
        session: bob.session.clone(),
        uuid: ada.uuid.clone(),
        provider_id: ada.provider_id,
    };
    assert_eq!(
        get_account_from_session(&store, &forged).unwrap_err().kind(),
        ErrorKind::AccountNotFound
    );
}

#[test]
fn replayed_state_fails_after_a_completed_login() {
    let mut record = EphemeralSession::new();
    let mut store = AccountStore::new();
    let url = request(&mut record, &config()).unwrap();
    let info = AuthRequest { state: state_in(&url), code: "code".to_string() };
    let first = callback(&mut record, &mut store, &replies(42), &info, &config());
    assert_eq!(first, CallbackOutcome::Authenticated);
    let session = record.session.clone();

    let second = callback(&mut record, &mut store, &replies(42), &info, &config());
    assert_eq!(second, CallbackOutcome::Failed(CallbackFailure::AuthMissing));
    assert_eq!(CallbackFailure::AuthMissing.kind(), ErrorKind::VerificationFailure);
    assert_eq!(store.len(), 1);
    assert_eq!(store.accounts()[0].sessions.len(), 1);
    assert_eq!(record.session, session);
    assert!(record.auth.is_none());
}

#[test]
fn failed_token_exchange_leaves_the_store_alone() {
    for (error, failure) in [
        (TokenError::RequestFailed, CallbackFailure::TokenRequestFailed),
        (TokenError::BodyUnreadable, CallbackFailure::TokenBodyUnreadable),
        (TokenError::Malformed, CallbackFailure::TokenMalformed),
    ] {
        let mut record = EphemeralSession::new();
        let mut store = AccountStore::new();
        record.insert_auth(hash("S").unwrap());
        let provider = ProviderReplies { token: Err(error), profile: replies(42).profile };
        let info = AuthRequest { state: "S".to_string(), code: "code".to_string() };
        let outcome = callback(&mut record, &mut store, &provider, &info, &config());
        assert_eq!(outcome, CallbackOutcome::Failed(failure));
        assert_eq!(store.len(), 0);
        assert!(record.auth.is_none());
        assert!(record.session.is_none());
    }
}

#[test]
fn failed_profile_fetch_leaves_the_store_alone() {
    for error in [UserError::RequestError, UserError::DeserializationError] {
        let mut record = EphemeralSession::new();
        let mut store = AccountStore::new();
        record.insert_auth(hash("S").unwrap());
        let provider = ProviderReplies { token: replies(42).token, profile: Err(error) };
        let info = AuthRequest { state: "S".to_string(), code: "code".to_string() };
        let outcome = callback(&mut record, &mut store, &provider, &info, &config());
        assert_eq!(outcome, CallbackOutcome::Failed(CallbackFailure::ProfileFailed));
        assert_eq!(store.len(), 0);
        assert!(record.auth.is_none());
        assert!(record.uuid.is_none());
    }
}

#[test]
fn login_lands_in_the_first_account_of_the_identity() {
    let mut store = AccountStore::new();
    for (uuid, elevated) in [("first", true), ("second", false)] {
        store.insert_one(Account {
            name: None,
            uuid: uuid.to_string(),
            github_id: 42,
            email: None,
            elevated,
            sessions: vec![Session { session_id: format!("{uuid}-old") }],
        });
    }
    let mut record = EphemeralSession::new();
    assert_eq!(login(&mut record, &mut store, 42), CallbackOutcome::Authenticated);
    assert_eq!(store.len(), 2);
    assert_eq!(store.accounts()[0].sessions.len(), 2);
    assert_eq!(handles(&store.accounts()[1]), ["second-old"]);
    assert_eq!(store.accounts()[0].sessions[0].session_id, "first-old");
    assert!(store.accounts()[0].elevated);
    assert_eq!(store.accounts()[0].name, None);
    assert_eq!(record.uuid.as_deref(), Some("first"));
    let resolved = get_account_from_session(&store, &record).unwrap();
    assert_eq!(resolved.uuid, "first");
    assert!(resolved.elevated);
}

#[test]
fn relogin_on_the_same_record_replaces_its_session() {
    let mut store = AccountStore::new();
    let mut record = EphemeralSession::new();
    login(&mut record, &mut store, 42);
    let first = record.session.clone().unwrap();
    login(&mut record, &mut store, 42);
    let second = record.session.clone().unwrap();
    assert_ne!(first, second);
    assert_eq!(handles(&store.accounts()[0]), [first, second]);
}

#[test]
fn login_answer_redirects_only_when_the_digest_is_stored() {
    let mut record = EphemeralSession::new();
    let started = request(&mut record, &config());
    let url = started.clone().unwrap();
    match answer(started, Ok(())) {
        LoginAnswer::Redirect(to) => assert_eq!(to, url),
        other => panic!("{other:?}"),
    }
    assert_eq!(answer(Ok(url.clone()), Ok(())).status(), 307);
}

#[test]
fn login_answer_is_a_server_error_when_the_write_fails() {
    for failure in [StoreFailure::Unavailable, StoreFailure::NothingModified] {
        let refused = answer(Ok("https://example.org/?state=S".to_string()), Err(failure));
        assert!(matches!(refused, LoginAnswer::ServerError));
        assert_eq!(refused.status(), 500);
    }
}

#[test]
fn login_answer_is_a_server_error_when_no_login_was_started() {
    for written in [Ok(()), Err(StoreFailure::Unavailable)] {
        let refused = answer(Err(HashError::Primitive), written);
        assert!(matches!(refused, LoginAnswer::ServerError));
        assert_eq!(refused.status(), 500);
    }
}
