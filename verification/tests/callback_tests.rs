use blog_backend::callback::{
    callback_step, token_failure_of, transition, CallbackAction, CallbackEvent, CallbackState,
};
use blog_backend::oauth::{AuthRequest, OAuthConfig, TokenResponse, UserError, UserResponse};
use blog_backend::outcome::{
    CallbackFailure, CallbackOutcome, ErrorKind, StoreFailure, TokenError,
};
use blog_backend::state_hash::hash;
use blog_backend::user::{Account, Criteria, Session};

fn config() -> OAuthConfig {
    OAuthConfig::new("cid".to_string(), "sec".to_string(), "http://localhost/cb".to_string())
}

fn info() -> AuthRequest {
    AuthRequest { state: "the-state".to_string(), code: "the-code".to_string() }
}

fn step(
    state: CallbackState,
    event: CallbackEvent,
    accepted: bool,
) -> (CallbackState, CallbackAction) {
    transition(&config(), &info(), state, event, accepted, "UUID".to_string(), "SID".to_string())
}

fn assert_fails(result: (CallbackState, CallbackAction), failure: CallbackFailure) {
    assert!(matches!(result.0, CallbackState::Finished), "{:?}", result.0);
    match result.1 {
        CallbackAction::Respond(outcome) => assert_eq!(outcome, CallbackOutcome::Failed(failure)),
        other => panic!("{other:?}"),
    }
}

fn token() -> TokenResponse {
    TokenResponse {
        access_token: "gho_token".to_string(),
        scope: "read:user".to_string(),
        token_type: "bearer".to_string(),
    }
}

fn user() -> UserResponse {
    UserResponse {
        login: Some("ada".to_string()),
        id: 42,
        name: Some("Ada".to_string()),
        email: None,
    }
}

fn account() -> Account {
    Account {
        name: Some("Ada".to_string()),
        uuid: "stored-uuid".to_string(),
        github_id: 42,
        email: None,
        elevated: true,
        sessions: vec![Session { session_id: "old".to_string() }],
    }
}

#[test]
fn begin_asks_for_the_pending_login() {
    let (state, action) = step(CallbackState::Fresh, CallbackEvent::Begin, false);
    assert!(matches!(state, CallbackState::ReadingAuth));
    assert!(matches!(action, CallbackAction::ReadAuth));
}

#[test]
fn unreadable_record_ends_the_callback() {
    let event = CallbackEvent::AuthRead(Err(StoreFailure::Unavailable));
    assert_fails(step(CallbackState::ReadingAuth, event, true), CallbackFailure::SessionUnreadable);
}

#[test]
fn missing_auth_is_removed_then_rejected() {
    let (state, action) =
        step(CallbackState::ReadingAuth, CallbackEvent::AuthRead(Ok(None)), true);
    assert!(matches!(action, CallbackAction::RemoveAuth));
    assert!(matches!(
        state,
        CallbackState::RemovingAuth { rejection: Some(CallbackFailure::AuthMissing) }
    ));
    assert_fails(step(state, CallbackEvent::AuthRemoved, true), CallbackFailure::AuthMissing);
}

#[test]
fn unverified_state_is_removed_then_rejected_without_provider_call() {
    let event = CallbackEvent::AuthRead(Ok(Some("digest".to_string())));
    let (state, action) = step(CallbackState::ReadingAuth, event, false);
    assert!(matches!(action, CallbackAction::RemoveAuth));
    assert!(matches!(
        state,
        CallbackState::RemovingAuth { rejection: Some(CallbackFailure::VerificationFailed) }
    ));
    assert_fails(
        step(state, CallbackEvent::AuthRemoved, false),
        CallbackFailure::VerificationFailed,
    );
}

#[test]
fn verified_state_is_removed_then_the_code_is_exchanged() {
    let event = CallbackEvent::AuthRead(Ok(Some("digest".to_string())));
    let (state, action) = step(CallbackState::ReadingAuth, event, true);
    assert!(matches!(action, CallbackAction::RemoveAuth));
    assert!(matches!(state, CallbackState::RemovingAuth { rejection: None }));
    let (state, action) = step(state, CallbackEvent::AuthRemoved, false);
    assert!(matches!(state, CallbackState::ExchangingCode));
    match action {
        CallbackAction::ExchangeCode { url } => assert_eq!(
            url,
            "https://github.com/login/oauth/access_token?client_id=cid&client_secret=sec&code=the-code"
        ),
        other => panic!("{other:?}"),
    }
}

#[test]
fn token_errors_end_the_callback() {
    for (error, failure) in [
        (TokenError::RequestFailed, CallbackFailure::TokenRequestFailed),
        (TokenError::BodyUnreadable, CallbackFailure::TokenBodyUnreadable),
        (TokenError::Malformed, CallbackFailure::TokenMalformed),
    ] {
        assert_eq!(token_failure_of(error), failure);
        let event = CallbackEvent::TokenReceived(Err(error));
        assert_fails(step(CallbackState::ExchangingCode, event, false), failure);
    }
}

#[test]
fn token_is_used_to_fetch_the_profile() {
    let event = CallbackEvent::TokenReceived(Ok(token()));
    let (state, action) = step(CallbackState::ExchangingCode, event, false);
    assert!(matches!(state, CallbackState::FetchingProfile));
    match action {
        CallbackAction::FetchProfile { access_token } => assert_eq!(access_token, "gho_token"),
        other => panic!("{other:?}"),
    }
}

#[test]
fn profile_errors_end_the_callback() {
    for error in [UserError::RequestError, UserError::DeserializationError] {
        let event = CallbackEvent::ProfileReceived(Err(error));
        assert_fails(
            step(CallbackState::FetchingProfile, event, false),
            CallbackFailure::ProfileFailed,
        );
    }
}

#[test]
fn profile_leads_to_the_account_check() {
    let event = CallbackEvent::ProfileReceived(Ok(user()));
    let (state, action) = step(CallbackState::FetchingProfile, event, false);
    match state {
        CallbackState::CheckingAccount { github_id, name, email } => {
            assert_eq!(github_id, 42);
            assert_eq!(name.as_deref(), Some("Ada"));
            assert_eq!(email, None);
        }
        other => panic!("{other:?}"),
    }
    match action {
        CallbackAction::FindAccount(criteria) => assert_eq!(criteria, Criteria { github_id: 42 }),
        other => panic!("{other:?}"),
    }
}

fn checking() -> CallbackState {
    CallbackState::CheckingAccount {
        github_id: 42,
        name: Some("Ada".to_string()),
        email: Some("ada@example.org".to_string()),
    }
}

#[test]
fn unknown_identity_gets_a_new_account() {
    let (state, action) = step(checking(), CallbackEvent::AccountFound(Ok(None)), false);
    assert!(matches!(state, CallbackState::InsertingAccount { github_id: 42 }));
    match action {
        CallbackAction::InsertAccount(account) => {
            assert_eq!(account.github_id, 42);
            assert_eq!(account.uuid, "UUID");
            assert_eq!(account.name.as_deref(), Some("Ada"));
            assert_eq!(account.email.as_deref(), Some("ada@example.org"));
            assert!(!account.elevated);
            assert!(account.sessions.is_empty());
        }
        other => panic!("{other:?}"),
    }
}

#[test]
fn known_identity_is_read_back_without_insert() {
    let (state, action) = step(checking(), CallbackEvent::AccountFound(Ok(Some(account()))), false);
    assert!(matches!(state, CallbackState::FindingAccount { github_id: 42 }));
    assert!(matches!(action, CallbackAction::FindAccount(Criteria { github_id: 42 })));
}

#[test]
fn failed_account_check_ends_the_callback() {
    let event = CallbackEvent::AccountFound(Err(StoreFailure::Unavailable));
    assert_fails(step(checking(), event, false), CallbackFailure::AccountCheckFailed);
}

#[test]
fn insert_is_followed_by_read_back_even_if_it_failed() {
    for result in [Ok(()), Err(StoreFailure::Unavailable)] {
        let (state, action) = step(
            CallbackState::InsertingAccount { github_id: 42 },
            CallbackEvent::AccountInserted(result),
            false,
        );
        assert!(matches!(state, CallbackState::FindingAccount { github_id: 42 }));
        assert!(matches!(action, CallbackAction::FindAccount(Criteria { github_id: 42 })));
    }
}

#[test]
fn read_back_account_gets_a_new_session() {
    let (state, action) = step(
        CallbackState::FindingAccount { github_id: 42 },
        CallbackEvent::AccountFound(Ok(Some(account()))),
        false,
    );
    match state {
        CallbackState::PushingSession { session_id, uuid, github_id } => {
            assert_eq!(session_id, "SID");
            assert_eq!(uuid, "stored-uuid");
            assert_eq!(github_id, 42);
        }
        other => panic!("{other:?}"),
    }
    match action {
        CallbackAction::PushSession { github_id, session_id } => {
            assert_eq!(github_id, 42);
            assert_eq!(session_id, "SID");
        }
        other => panic!("{other:?}"),
    }
}

#[test]
fn failed_read_back_ends_the_callback() {
    let finding = || CallbackState::FindingAccount { github_id: 42 };
    assert_fails(
        step(finding(), CallbackEvent::AccountFound(Ok(None)), false),
        CallbackFailure::AccountMissing,
    );
    assert_fails(
        step(finding(), CallbackEvent::AccountFound(Err(StoreFailure::Unavailable)), false),
        CallbackFailure::AccountReadFailed,
    );
}

fn pushing() -> CallbackState {
    CallbackState::PushingSession {
        session_id: "SID".to_string(),
        uuid: "stored-uuid".to_string(),
        github_id: 42,
    }
}

#[test]
fn unmodified_push_ends_the_callback() {
    assert_fails(
        step(pushing(), CallbackEvent::SessionPushed(Ok(0)), false),
        CallbackFailure::SessionNotCreated,
    );
    assert_fails(
        step(pushing(), CallbackEvent::SessionPushed(Err(StoreFailure::Unavailable)), false),
        CallbackFailure::SessionNotCreated,
    );
}

#[test]
fn pushed_session_is_bound_into_the_record() {
    for modified in [1, 2, u64::MAX] {
        let (state, action) = step(pushing(), CallbackEvent::SessionPushed(Ok(modified)), false);
        assert!(matches!(state, CallbackState::BindingSession));
        match action {
            CallbackAction::BindSession { session_id, uuid, github_id } => {
                assert_eq!(session_id, "SID");
                assert_eq!(uuid, "stored-uuid");
                assert_eq!(github_id, 42);
            }
            other => panic!("{other:?}"),
        }
    }
}

#[test]
fn bound_session_is_answered_with_success() {
    let (state, action) =
        step(CallbackState::BindingSession, CallbackEvent::SessionBound(Ok(())), false);
    assert!(matches!(state, CallbackState::Finished));
    assert!(matches!(action, CallbackAction::Respond(CallbackOutcome::Authenticated)));
}

#[test]
fn unbound_session_ends_the_callback() {
    let event = CallbackEvent::SessionBound(Err(StoreFailure::Unavailable));
    assert_fails(step(CallbackState::BindingSession, event, false), CallbackFailure::SessionNotBound);
}

#[test]
fn events_out_of_turn_end_the_callback() {
    assert_fails(
        step(CallbackState::Fresh, CallbackEvent::AuthRemoved, true),
        CallbackFailure::OutOfTurn,
    );
    assert_fails(
        step(CallbackState::ReadingAuth, CallbackEvent::Begin, true),
        CallbackFailure::OutOfTurn,
    );
    assert_fails(
        step(CallbackState::ExchangingCode, CallbackEvent::ProfileReceived(Ok(user())), true),
        CallbackFailure::OutOfTurn,
    );
    assert_fails(
        step(CallbackState::Finished, CallbackEvent::Begin, true),
        CallbackFailure::OutOfTurn,
    );
    assert_fails(
        step(CallbackState::BindingSession, CallbackEvent::SessionPushed(Ok(1)), true),
        CallbackFailure::OutOfTurn,
    );
}

#[test]
fn step_checks_the_state_against_the_digest() {
    let digest = hash("the-state").unwrap();
    let (state, action) = callback_step(
        &config(),
        &info(),
        CallbackState::ReadingAuth,
        CallbackEvent::AuthRead(Ok(Some(digest))),
    );
    assert!(matches!(action, CallbackAction::RemoveAuth));
    assert!(matches!(state, CallbackState::RemovingAuth { rejection: None }));

    let other = hash("another-state").unwrap();
    let (state, action) = callback_step(
        &config(),
        &info(),
        CallbackState::ReadingAuth,
        CallbackEvent::AuthRead(Ok(Some(other))),
    );
    assert!(matches!(action, CallbackAction::RemoveAuth));
    assert!(matches!(
        state,
        CallbackState::RemovingAuth { rejection: Some(CallbackFailure::VerificationFailed) }
    ));
}

#[test]
fn step_rejects_an_empty_digest() {
    let (state, _) = callback_step(
        &config(),
        &info(),
        CallbackState::ReadingAuth,
        CallbackEvent::AuthRead(Ok(Some(String::new()))),
    );
    assert!(matches!(
        state,
        CallbackState::RemovingAuth { rejection: Some(CallbackFailure::VerificationFailed) }
    ));
}

#[test]
fn step_mints_the_identifiers() {
    let (_, insert) =
        callback_step(&config(), &info(), checking(), CallbackEvent::AccountFound(Ok(None)));
    match insert {
        CallbackAction::InsertAccount(account) => {
            assert_eq!(account.uuid.len(), 36);
            assert_eq!(account.uuid.matches('-').count(), 4);
            assert!(account.sessions.is_empty());
            assert!(!account.elevated);
        }
        other => panic!("{other:?}"),
    }
    let (state, push) = callback_step(
        &config(),
        &info(),
        CallbackState::FindingAccount { github_id: 42 },
        CallbackEvent::AccountFound(Ok(Some(account()))),
    );
    match (state, push) {
        (
            CallbackState::PushingSession { session_id: kept, .. },
            CallbackAction::PushSession { session_id, github_id },
        ) => {
            assert_eq!(github_id, 42);
            assert_eq!(session_id.len(), 64);
            assert!(session_id.chars().all(|c| c.is_ascii_alphanumeric()));
            assert_eq!(kept, session_id);
        }
        other => panic!("{other:?}"),
    }
}

#[test]
fn outcomes_have_status_body_and_kind() {
    assert_eq!(CallbackOutcome::Authenticated.status(), 200);
    assert_eq!(CallbackOutcome::Authenticated.body(), "Successfully authenticated.");
    let failed = CallbackOutcome::Failed(CallbackFailure::VerificationFailed);
    assert_eq!(failed.status(), 500);
    assert_eq!(failed.body(), "Verification failed");
    assert_eq!(CallbackFailure::VerificationFailed.kind(), ErrorKind::VerificationFailure);
    assert_eq!(CallbackFailure::AuthMissing.kind(), ErrorKind::VerificationFailure);
    assert_eq!(CallbackFailure::AuthMissing.body(), "Hash failed");
    assert_eq!(CallbackFailure::TokenMalformed.kind(), ErrorKind::DeserializationFailure);
    assert_eq!(
        CallbackFailure::TokenMalformed.body(),
        "Failed to serialize github token to token response"
    );
    assert_eq!(CallbackFailure::TokenBodyUnreadable.body(), "Failed to serialize github response");
    assert_eq!(CallbackFailure::TokenRequestFailed.kind(), ErrorKind::TransportFailure);
    assert_eq!(CallbackFailure::TokenRequestFailed.body(), "");
    assert_eq!(CallbackFailure::ProfileFailed.body(), "Failed to get user json response");
    assert_eq!(
        CallbackFailure::AccountCheckFailed.body(),
        "Could not get account exists from database"
    );
    assert_eq!(CallbackFailure::AccountMissing.body(), "Could not find account from database");
    assert_eq!(CallbackFailure::AccountReadFailed.body(), "Could not GET account");
    assert_eq!(CallbackFailure::SessionNotCreated.kind(), ErrorKind::StoreWriteFailure);
    assert_eq!(CallbackFailure::SessionNotCreated.body(), "Could not generate a session");
    assert_eq!(CallbackFailure::SessionNotBound.kind(), ErrorKind::StoreWriteFailure);
    assert_eq!(CallbackFailure::SessionNotBound.body(), "Could not set account session");
    assert_eq!(CallbackFailure::SessionUnreadable.body(), "");
    assert_eq!(CallbackFailure::OutOfTurn.body(), "");
}
