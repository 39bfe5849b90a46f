//! The callback handler: what completes a login once the provider has sent
//! the browser back.
//!
//! The handler waits on the session record, the provider and the account
//! store in turn. What it decides between two replies is one transition: from
//! the state it is in and the event that arrived to the state it goes to and
//! the action it wants done next. The embedding program performs the action
//! and comes back with the event.

use crate::fresh::{
    generate_session_id, generate_uuid, is_alphanumeric_token, is_hyphenated_uuid, SESSION_ID_LEN,
};
use crate::oauth::{
    exchange_url_of, AuthRequest, OAuthConfig, TokenRequest, TokenResponse, UserError,
    UserResponse,
};
use crate::outcome::{CallbackFailure, CallbackOutcome, StoreFailure, TokenError};
use crate::state_hash::{digest_accepts, verify};
use crate::user::{first_login_account, text_view, Account, AccountView, Criteria};
use vstd::prelude::*;

verus! {

/// Where a callback stands.
#[derive(Debug)]
pub enum CallbackState {
    /// Nothing has been asked for yet.
    Fresh,
    /// The pending login's digest is being read from the session record.
    ReadingAuth,
    /// The digest has been read and is being deleted; `rejection` is why the
    /// login will be refused once it is gone, if it will.
    RemovingAuth { rejection: Option<CallbackFailure> },
    /// The code is being redeemed for a token.
    ExchangingCode,
    /// The profile is being fetched.
    FetchingProfile,
    /// The account store is being asked whether the identity is known.
    CheckingAccount { github_id: u64, name: Option<String>, email: Option<String> },
    /// A new account is being inserted.
    InsertingAccount { github_id: u64 },
    /// The account is being read back.
    FindingAccount { github_id: u64 },
    /// A new session handle is being appended to the account.
    PushingSession { session_id: String, uuid: String, github_id: u64 },
    /// The login is being written into the session record.
    BindingSession,
    /// The client has been answered.
    Finished,
}

/// What a [`CallbackState`] is, as mathematics.
pub ghost enum CallbackStateView {
    Fresh,
    ReadingAuth,
    RemovingAuth { rejection: Option<CallbackFailure> },
    ExchangingCode,
    FetchingProfile,
    CheckingAccount { github_id: u64, name: Option<Seq<char>>, email: Option<Seq<char>> },
    InsertingAccount { github_id: u64 },
    FindingAccount { github_id: u64 },
    PushingSession { session_id: Seq<char>, uuid: Seq<char>, github_id: u64 },
    BindingSession,
    Finished,
}

impl View for CallbackState {
    type V = CallbackStateView;

    open spec fn view(&self) -> CallbackStateView {
        match *self {
            CallbackState::Fresh => CallbackStateView::Fresh,
            CallbackState::ReadingAuth => CallbackStateView::ReadingAuth,
            CallbackState::RemovingAuth { rejection } => CallbackStateView::RemovingAuth {
                rejection,
            },
            CallbackState::ExchangingCode => CallbackStateView::ExchangingCode,
            CallbackState::FetchingProfile => CallbackStateView::FetchingProfile,
            CallbackState::CheckingAccount { github_id, name, email } => {
                CallbackStateView::CheckingAccount {
                    github_id,
                    name: text_view(name),
                    email: text_view(email),
                }
            },
            CallbackState::InsertingAccount { github_id } => CallbackStateView::InsertingAccount {
                github_id,
            },
            CallbackState::FindingAccount { github_id } => CallbackStateView::FindingAccount {
                github_id,
            },
            CallbackState::PushingSession { session_id, uuid, github_id } => {
                CallbackStateView::PushingSession {
                    session_id: session_id@,
                    uuid: uuid@,
                    github_id,
                }
            },
            CallbackState::BindingSession => CallbackStateView::BindingSession,
            CallbackState::Finished => CallbackStateView::Finished,
        }
    }
}

/// What came back from the last action.
#[derive(Debug)]
pub enum CallbackEvent {
    /// The provider's redirect arrived.
    Begin,
    /// The session record's `auth` field was read: its value, if it has one.
    AuthRead(Result<Option<String>, StoreFailure>),
    /// The session record's `auth` field is gone.
    AuthRemoved,
    /// The token endpoint replied.
    TokenReceived(Result<TokenResponse, TokenError>),
    /// The profile endpoint replied.
    ProfileReceived(Result<UserResponse, UserError>),
    /// The account store looked the identity up.
    AccountFound(Result<Option<Account>, StoreFailure>),
    /// The account store was asked to insert the new account.
    AccountInserted(Result<(), StoreFailure>),
    /// The account store was asked to append the handle: how many documents
    /// it modified.
    SessionPushed(Result<u64, StoreFailure>),
    /// The session record was asked to take the login's three fields.
    SessionBound(Result<(), StoreFailure>),
}

/// What the handler wants done next.
#[derive(Debug)]
pub enum CallbackAction {
    /// Read the session record's `auth` field.
    ReadAuth,
    /// Delete the session record's `auth` field.
    RemoveAuth,
    /// Post to this URL of the token endpoint.
    ExchangeCode { url: String },
    /// Get the profile with this token as bearer credential.
    FetchProfile { access_token: String },
    /// Find the account of this identity.
    FindAccount(Criteria),
    /// Insert this account.
    InsertAccount(Account),
    /// Append this handle to the session list of this identity's account, in
    /// one conditional update.
    PushSession { github_id: u64, session_id: String },
    /// Write `session`, `uuid` and `provider_id` into the session record.
    BindSession { session_id: String, uuid: String, github_id: u64 },
    /// Answer the client.
    Respond(CallbackOutcome),
}

/// What a [`CallbackAction`] is, as mathematics.
pub ghost enum CallbackActionView {
    ReadAuth,
    RemoveAuth,
    ExchangeCode { url: Seq<char> },
    FetchProfile { access_token: Seq<char> },
    FindAccount(Criteria),
    InsertAccount(AccountView),
    PushSession { github_id: u64, session_id: Seq<char> },
    BindSession { session_id: Seq<char>, uuid: Seq<char>, github_id: u64 },
    Respond(CallbackOutcome),
}

impl View for CallbackAction {
    type V = CallbackActionView;

    open spec fn view(&self) -> CallbackActionView {
        match *self {
            CallbackAction::ReadAuth => CallbackActionView::ReadAuth,
            CallbackAction::RemoveAuth => CallbackActionView::RemoveAuth,
            CallbackAction::ExchangeCode { url } => CallbackActionView::ExchangeCode { url: url@ },
            CallbackAction::FetchProfile { access_token } => CallbackActionView::FetchProfile {
                access_token: access_token@,
            },
            CallbackAction::FindAccount(criteria) => CallbackActionView::FindAccount(criteria),
            CallbackAction::InsertAccount(account) => CallbackActionView::InsertAccount(account@),
            CallbackAction::PushSession { github_id, session_id } => {
                CallbackActionView::PushSession { github_id, session_id: session_id@ }
            },
            CallbackAction::BindSession { session_id, uuid, github_id } => {
                CallbackActionView::BindSession { session_id: session_id@, uuid: uuid@, github_id }
            },
            CallbackAction::Respond(outcome) => CallbackActionView::Respond(outcome),
        }
    }
}

/// The failure that a token endpoint's error ends the callback with.
pub open spec fn token_failure(error: TokenError) -> CallbackFailure {
    match error {
        TokenError::RequestFailed => CallbackFailure::TokenRequestFailed,
        TokenError::BodyUnreadable => CallbackFailure::TokenBodyUnreadable,
        TokenError::Malformed => CallbackFailure::TokenMalformed,
    }
}

/// The callback ends with this failure.
pub open spec fn fail(failure: CallbackFailure) -> (CallbackStateView, CallbackActionView) {
    (CallbackStateView::Finished, CallbackActionView::Respond(CallbackOutcome::Failed(failure)))
}

/// The handler's transition.
///
/// `accepted` says whether the state received vouches for the digest read;
/// `uuid` and `session_id` are the identifiers to mint where a step needs one.
/// An event that the state was not waiting for ends the callback.
pub open spec fn transition_spec(
    config: OAuthConfig,
    info: AuthRequest,
    state: CallbackStateView,
    event: CallbackEvent,
    accepted: bool,
    uuid: Seq<char>,
    session_id: Seq<char>,
) -> (CallbackStateView, CallbackActionView) {
    match state {
        CallbackStateView::Fresh => match event {
            CallbackEvent::Begin => (CallbackStateView::ReadingAuth, CallbackActionView::ReadAuth),
            _ => fail(CallbackFailure::OutOfTurn),
        },
        CallbackStateView::ReadingAuth => match event {
            CallbackEvent::AuthRead(Err(_)) => fail(CallbackFailure::SessionUnreadable),
            CallbackEvent::AuthRead(Ok(None)) => (
                CallbackStateView::RemovingAuth { rejection: Some(CallbackFailure::AuthMissing) },
                CallbackActionView::RemoveAuth,
            ),
            CallbackEvent::AuthRead(Ok(Some(_))) => (
                CallbackStateView::RemovingAuth {
                    rejection: if accepted {
                        None
                    } else {
                        Some(CallbackFailure::VerificationFailed)
                    },
                },
                CallbackActionView::RemoveAuth,
            ),
            _ => fail(CallbackFailure::OutOfTurn),
        },
        CallbackStateView::RemovingAuth { rejection } => match event {
            CallbackEvent::AuthRemoved => match rejection {
                Some(failure) => fail(failure),
                None => (
                    CallbackStateView::ExchangingCode,
                    CallbackActionView::ExchangeCode {
                        url: exchange_url_of(config.client_id@, config.client_secret@, info.code@),
                    },
                ),
            },
            _ => fail(CallbackFailure::OutOfTurn),
        },
        CallbackStateView::ExchangingCode => match event {
            CallbackEvent::TokenReceived(Err(error)) => fail(token_failure(error)),
            CallbackEvent::TokenReceived(Ok(token)) => (
                CallbackStateView::FetchingProfile,
                CallbackActionView::FetchProfile { access_token: token.access_token@ },
            ),
            _ => fail(CallbackFailure::OutOfTurn),
        },
        CallbackStateView::FetchingProfile => match event {
            CallbackEvent::ProfileReceived(Err(_)) => fail(CallbackFailure::ProfileFailed),
            CallbackEvent::ProfileReceived(Ok(user)) => (
                CallbackStateView::CheckingAccount {
                    github_id: user.id,
                    name: text_view(user.name),
                    email: text_view(user.email),
                },
                CallbackActionView::FindAccount(Criteria { github_id: user.id }),
            ),
            _ => fail(CallbackFailure::OutOfTurn),
        },
        CallbackStateView::CheckingAccount { github_id, name, email } => match event {
            CallbackEvent::AccountFound(Err(_)) => fail(CallbackFailure::AccountCheckFailed),
            CallbackEvent::AccountFound(Ok(Some(_))) => (
                CallbackStateView::FindingAccount { github_id },
                CallbackActionView::FindAccount(Criteria { github_id }),
            ),
            CallbackEvent::AccountFound(Ok(None)) => (
                CallbackStateView::InsertingAccount { github_id },
                CallbackActionView::InsertAccount(
                    first_login_account(github_id, name, email, uuid),
                ),
            ),
            _ => fail(CallbackFailure::OutOfTurn),
        },
        CallbackStateView::InsertingAccount { github_id } => match event {
            CallbackEvent::AccountInserted(_) => (
                CallbackStateView::FindingAccount { github_id },
                CallbackActionView::FindAccount(Criteria { github_id }),
            ),
            _ => fail(CallbackFailure::OutOfTurn),
        },
        CallbackStateView::FindingAccount { github_id } => match event {
            CallbackEvent::AccountFound(Err(_)) => fail(CallbackFailure::AccountReadFailed),
            CallbackEvent::AccountFound(Ok(None)) => fail(CallbackFailure::AccountMissing),
            CallbackEvent::AccountFound(Ok(Some(account))) => (
                CallbackStateView::PushingSession {
                    session_id,
                    uuid: account.uuid@,
                    github_id: account.github_id,
                },
                CallbackActionView::PushSession { github_id: account.github_id, session_id },
            ),
            _ => fail(CallbackFailure::OutOfTurn),
        },
        CallbackStateView::PushingSession { session_id, uuid, github_id } => match event {
            CallbackEvent::SessionPushed(Err(_)) => fail(CallbackFailure::SessionNotCreated),
            CallbackEvent::SessionPushed(Ok(modified)) => if modified == 0 {
                fail(CallbackFailure::SessionNotCreated)
            } else {
                (
                    CallbackStateView::BindingSession,
                    CallbackActionView::BindSession { session_id, uuid, github_id },
                )
            },
            _ => fail(CallbackFailure::OutOfTurn),
        },
        CallbackStateView::BindingSession => match event {
            CallbackEvent::SessionBound(Err(_)) => fail(CallbackFailure::SessionNotBound),
            CallbackEvent::SessionBound(Ok(_)) => (
                CallbackStateView::Finished,
                CallbackActionView::Respond(CallbackOutcome::Authenticated),
            ),
            _ => fail(CallbackFailure::OutOfTurn),
        },
        CallbackStateView::Finished => fail(CallbackFailure::OutOfTurn),
    }
}

/// How far a callback has come.
pub open spec fn phase(state: CallbackStateView) -> nat {
    match state {
        CallbackStateView::Fresh => 0,
        CallbackStateView::ReadingAuth => 1,
        CallbackStateView::RemovingAuth { .. } => 2,
        CallbackStateView::ExchangingCode => 3,
        CallbackStateView::FetchingProfile => 4,
        CallbackStateView::CheckingAccount { .. } => 5,
        CallbackStateView::InsertingAccount { .. } => 6,
        CallbackStateView::FindingAccount { .. } => 7,
        CallbackStateView::PushingSession { .. } => 8,
        CallbackStateView::BindingSession => 9,
        CallbackStateView::Finished => 10,
    }
}

/// Whether the state received vouches for the digest that an event carries.
/// An event that carries no digest vouches for nothing.
pub open spec fn accepted_by(info: AuthRequest, event: CallbackEvent) -> bool {
    match event {
        CallbackEvent::AuthRead(Ok(Some(digest))) => digest_accepts(digest@, info.state@),
        _ => false,
    }
}

/// The internal identifier that an action mints, if it mints one.
pub open spec fn minted_uuid(action: CallbackActionView) -> Seq<char> {
    match action {
        CallbackActionView::InsertAccount(account) => account.uuid,
        _ => Seq::empty(),
    }
}

/// The session handle that an action mints, if it mints one.
pub open spec fn minted_session_id(action: CallbackActionView) -> Seq<char> {
    match action {
        CallbackActionView::PushSession { session_id, .. } => session_id,
        _ => Seq::empty(),
    }
}

/// The failure that a token endpoint's error ends the callback with.
pub fn token_failure_of(error: TokenError) -> (res: CallbackFailure)
    ensures
        res == token_failure(error),
{
    match error {
        TokenError::RequestFailed => CallbackFailure::TokenRequestFailed,
        TokenError::BodyUnreadable => CallbackFailure::TokenBodyUnreadable,
        TokenError::Malformed => CallbackFailure::TokenMalformed,
    }
}

/// Ends the callback with a failure.
fn failed(failure: CallbackFailure) -> (res: (CallbackState, CallbackAction))
    ensures
        (res.0@, res.1@) == fail(failure),
{
    (CallbackState::Finished, CallbackAction::Respond(CallbackOutcome::Failed(failure)))
}

/// Takes one transition, given what the outside calls of this step returned:
/// `accepted` for the check of the state against the digest read, and the
/// freshly drawn `uuid` and `session_id`.
pub fn transition(
    config: &OAuthConfig,
    info: &AuthRequest,
    state: CallbackState,
    event: CallbackEvent,
    accepted: bool,
    uuid: String,
    session_id: String,
) -> (res: (CallbackState, CallbackAction))
    ensures
        (res.0@, res.1@) == transition_spec(
            *config,
            *info,
            state@,
            event,
            accepted,
            uuid@,
            session_id@,
        ),
{
    match state {
        CallbackState::Fresh => match event {
            CallbackEvent::Begin => (CallbackState::ReadingAuth, CallbackAction::ReadAuth),
            _ => failed(CallbackFailure::OutOfTurn),
        },
        CallbackState::ReadingAuth => match event {
            CallbackEvent::AuthRead(Err(_)) => failed(CallbackFailure::SessionUnreadable),
            CallbackEvent::AuthRead(Ok(None)) => (
                CallbackState::RemovingAuth { rejection: Some(CallbackFailure::AuthMissing) },
                CallbackAction::RemoveAuth,
            ),
            CallbackEvent::AuthRead(Ok(Some(_))) => {
                let rejection = if accepted {
                    None
                } else {
                    Some(CallbackFailure::VerificationFailed)
                };
                (CallbackState::RemovingAuth { rejection }, CallbackAction::RemoveAuth)
            },
            _ => failed(CallbackFailure::OutOfTurn),
        },
        CallbackState::RemovingAuth { rejection } => match event {
            CallbackEvent::AuthRemoved => match rejection {
                Some(failure) => failed(failure),
                None => {
                    let url = TokenRequest::new(config, info).exchange_url();
                    (CallbackState::ExchangingCode, CallbackAction::ExchangeCode { url })
                },
            },
            _ => failed(CallbackFailure::OutOfTurn),
        },
        CallbackState::ExchangingCode => match event {
            CallbackEvent::TokenReceived(Err(error)) => failed(token_failure_of(error)),
            CallbackEvent::TokenReceived(Ok(token)) => (
                CallbackState::FetchingProfile,
                CallbackAction::FetchProfile { access_token: token.access_token },
            ),
            _ => failed(CallbackFailure::OutOfTurn),
        },
        CallbackState::FetchingProfile => match event {
            CallbackEvent::ProfileReceived(Err(_)) => failed(CallbackFailure::ProfileFailed),
            CallbackEvent::ProfileReceived(Ok(user)) => (
                CallbackState::CheckingAccount {
                    github_id: user.id,
                    name: user.name,
                    email: user.email,
                },
                CallbackAction::FindAccount(Criteria { github_id: user.id }),
            ),
            _ => failed(CallbackFailure::OutOfTurn),
        },
        CallbackState::CheckingAccount { github_id, name, email } => match event {
            CallbackEvent::AccountFound(Err(_)) => failed(CallbackFailure::AccountCheckFailed),
            CallbackEvent::AccountFound(Ok(Some(_))) => (
                CallbackState::FindingAccount { github_id },
                CallbackAction::FindAccount(Criteria { github_id }),
            ),
            CallbackEvent::AccountFound(Ok(None)) => (
                CallbackState::InsertingAccount { github_id },
                CallbackAction::InsertAccount(Account::first_login(github_id, name, email, uuid)),
            ),
            _ => failed(CallbackFailure::OutOfTurn),
        },
        CallbackState::InsertingAccount { github_id } => match event {
            CallbackEvent::AccountInserted(_) => (
                CallbackState::FindingAccount { github_id },
                CallbackAction::FindAccount(Criteria { github_id }),
            ),
            _ => failed(CallbackFailure::OutOfTurn),
        },
        CallbackState::FindingAccount { github_id: _ } => match event {
            CallbackEvent::AccountFound(Err(_)) => failed(CallbackFailure::AccountReadFailed),
            CallbackEvent::AccountFound(Ok(None)) => failed(CallbackFailure::AccountMissing),
            CallbackEvent::AccountFound(Ok(Some(account))) => {
                let github_id = account.github_id;
                let handle = session_id.clone();
                (
                    CallbackState::PushingSession { session_id, uuid: account.uuid, github_id },
                    CallbackAction::PushSession { github_id, session_id: handle },
                )
            },
            _ => failed(CallbackFailure::OutOfTurn),
        },
        CallbackState::PushingSession { session_id, uuid, github_id } => match event {
            CallbackEvent::SessionPushed(Err(_)) => failed(CallbackFailure::SessionNotCreated),
            CallbackEvent::SessionPushed(Ok(modified)) => {
                if modified == 0 {
                    failed(CallbackFailure::SessionNotCreated)
                } else {
                    (
                        CallbackState::BindingSession,
                        CallbackAction::BindSession { session_id, uuid, github_id },
                    )
                }
            },
            _ => failed(CallbackFailure::OutOfTurn),
        },
        CallbackState::BindingSession => match event {
            CallbackEvent::SessionBound(Err(_)) => failed(CallbackFailure::SessionNotBound),
            CallbackEvent::SessionBound(Ok(_)) => (
                CallbackState::Finished,
                CallbackAction::Respond(CallbackOutcome::Authenticated),
            ),
            _ => failed(CallbackFailure::OutOfTurn),
        },
        CallbackState::Finished => failed(CallbackFailure::OutOfTurn),
    }
}

/// Takes one transition.
///
/// Where the event carries the digest read from the session record, the
/// state received is checked against it. Where the step inserts an account or
/// appends a session, the identifier is drawn here: the action holds it, and
/// the transition is the one that `transition_spec` gives for that identifier.
pub fn callback_step(
    config: &OAuthConfig,
    info: &AuthRequest,
    state: CallbackState,
    event: CallbackEvent,
) -> (res: (CallbackState, CallbackAction))
    ensures
        (res.0@, res.1@) == transition_spec(
            *config,
            *info,
            state@,
            event,
            accepted_by(*info, event),
            minted_uuid(res.1@),
            minted_session_id(res.1@),
        ),
        res.1@ is InsertAccount ==> is_hyphenated_uuid(minted_uuid(res.1@)),
        res.1@ is PushSession ==> is_alphanumeric_token(
            minted_session_id(res.1@),
            SESSION_ID_LEN as nat,
        ),
{
    let accepted = match &event {
        CallbackEvent::AuthRead(Ok(Some(digest))) => verify(info.state.as_str(), digest.as_str()),
        _ => false,
    };
    let uuid = match &state {
        CallbackState::CheckingAccount { .. } => generate_uuid(),
        _ => String::new(),
    };
    let session_id = match &state {
        CallbackState::FindingAccount { .. } => generate_session_id(),
        _ => String::new(),
    };
    transition(config, info, state, event, accepted, uuid, session_id)
}

/// A transition moves the callback forward, and answers the client exactly
/// when it finishes.
pub proof fn lemma_transition_progress(
    config: OAuthConfig,
    info: AuthRequest,
    state: CallbackStateView,
    event: CallbackEvent,
    accepted: bool,
    uuid: Seq<char>,
    session_id: Seq<char>,
)
    ensures
        ({
            let next = transition_spec(config, info, state, event, accepted, uuid, session_id);
            &&& next.1 is Respond <==> next.0 is Finished
            &&& !(state is Finished) ==> phase(next.0) > phase(state)
        }),
{
}

/// A digest that was read is deleted next, whether or not the state verifies
/// against it, and so is the field of a record that holds none.
pub proof fn lemma_read_is_followed_by_removal(
    config: OAuthConfig,
    info: AuthRequest,
    stored: Option<String>,
    accepted: bool,
    uuid: Seq<char>,
    session_id: Seq<char>,
)
    ensures
        transition_spec(
            config,
            info,
            CallbackStateView::ReadingAuth,
            CallbackEvent::AuthRead(Ok(stored)),
            accepted,
            uuid,
            session_id,
        ).1 == CallbackActionView::RemoveAuth,
{
}

/// The provider is called on only after the state has verified: the token
/// endpoint only from a removal that followed an accepted digest, and the
/// profile endpoint only with a token that the token endpoint gave.
pub proof fn lemma_provider_is_called_after_verification(
    config: OAuthConfig,
    info: AuthRequest,
    state: CallbackStateView,
    event: CallbackEvent,
    accepted: bool,
    uuid: Seq<char>,
    session_id: Seq<char>,
)
    ensures
        ({
            let next = transition_spec(config, info, state, event, accepted, uuid, session_id);
            &&& next.0 == (CallbackStateView::RemovingAuth { rejection: None }) ==> {
                &&& state is ReadingAuth
                &&& event matches CallbackEvent::AuthRead(Ok(Some(_)))
                &&& accepted
            }
            &&& next.1 is ExchangeCode ==> {
                &&& state == (CallbackStateView::RemovingAuth { rejection: None })
                &&& event is AuthRemoved
            }
            &&& next.1 is FetchProfile ==> {
                &&& state is ExchangingCode
                &&& event matches CallbackEvent::TokenReceived(Ok(_))
            }
        }),
{
}

/// What a callback asks of the account store: an account that it inserts is
/// not elevated and has no sessions, and a session list is changed by
/// appending a handle and in no other way.
pub proof fn lemma_store_is_asked_to_insert_or_append(
    config: OAuthConfig,
    info: AuthRequest,
    state: CallbackStateView,
    event: CallbackEvent,
    accepted: bool,
    uuid: Seq<char>,
    session_id: Seq<char>,
)
    ensures
        match transition_spec(config, info, state, event, accepted, uuid, session_id).1 {
            CallbackActionView::InsertAccount(account) => {
                &&& !account.elevated
                &&& account.sessions.len() == 0
                &&& account.uuid == uuid
            },
            CallbackActionView::PushSession { github_id: _, session_id: handle } => handle
                == session_id,
            _ => true,
        },
{
}

} // verus!
