//! A whole callback, run against the in-memory session record and account
//! store.
//!
//! `callback_flow` says what a callback does from end to end: what becomes of
//! the record and of the store, and how the client is answered. `callback`
//! reaches the same end by taking the handler's transitions one by one and
//! performing each action it asks for.

use crate::callback::{
    accepted_by, callback_step, lemma_transition_progress, minted_session_id, minted_uuid, phase,
    token_failure, CallbackAction, CallbackEvent, CallbackState, CallbackStateView,
};
use crate::fresh::{is_alphanumeric_token, is_hyphenated_uuid, SESSION_ID_LEN};
use crate::login::pending_login;
use crate::oauth::{
    clone_profile_reply, clone_token_reply, profile_reply_view, token_reply_view, AuthRequest,
    OAuthConfig, ProfileView, TokenResponse, UserError, UserResponse,
};
use crate::outcome::{failure_kind, CallbackFailure, CallbackOutcome, ErrorKind, TokenError};
use crate::session::{bound_session, EphemeralSession, EphemeralSessionView};
use crate::state_hash::digest_accepts;
use crate::store::{
    account_view, filter_matches, first_match, found, has_session, is_first_match,
    lemma_apply_update_changes, lemma_first_match_is, lemma_first_match_none,
    lemma_update_changes_one_session_list, modified_count, updated, updated_at, AccountFilter,
    AccountStore, SessionUpdate, SessionUpdateView,
};
use crate::user::{
    by_github_id, by_triple, clone_text, find_account, first_login_account, insert_account,
    resolved, text_view, AccountView, SessionError,
};
use vstd::prelude::*;

verus! {

/// What the provider answers in the course of one callback.
#[derive(Debug)]
pub struct ProviderReplies {
    /// The token endpoint's reply to the code.
    pub token: Result<TokenResponse, TokenError>,
    /// The profile endpoint's reply to the token.
    pub profile: Result<UserResponse, UserError>,
}

/// Why a callback is refused on the strength of the session record alone, if
/// it is: no login is pending, or the state does not verify.
pub open spec fn rejection_of(auth: Option<Seq<char>>, state: Seq<char>) -> Option<
    CallbackFailure,
> {
    match auth {
        None => Some(CallbackFailure::AuthMissing),
        Some(digest) => if digest_accepts(digest, state) {
            None
        } else {
            Some(CallbackFailure::VerificationFailed)
        },
    }
}

/// The session record once its pending login has been consumed.
pub open spec fn consumed(session: EphemeralSessionView) -> EphemeralSessionView {
    EphemeralSessionView { auth: None, ..session }
}

/// The store once the identity has an account: as it is where it has one,
/// else with a first-login account under `uuid` at the end.
pub open spec fn with_account(
    docs: Seq<AccountView>,
    profile: ProfileView,
    uuid: Seq<char>,
) -> Seq<AccountView> {
    if found(docs, by_github_id(profile.id)) is Some {
        docs
    } else {
        docs.push(first_login_account(profile.id, profile.name, profile.email, uuid))
    }
}

/// The account that a login of the identity lands in.
pub open spec fn login_account(
    docs: Seq<AccountView>,
    profile: ProfileView,
    uuid: Seq<char>,
) -> AccountView {
    found(with_account(docs, profile, uuid), by_github_id(profile.id)).unwrap()
}

/// The store once the login's session handle has been appended.
pub open spec fn with_login(
    docs: Seq<AccountView>,
    profile: ProfileView,
    uuid: Seq<char>,
    session_id: Seq<char>,
) -> Seq<AccountView> {
    updated(
        with_account(docs, profile, uuid),
        by_github_id(login_account(docs, profile, uuid).github_id),
        SessionUpdateView::Push(session_id),
    )
}

/// What a callback makes of a session record and an account store, and how
/// it answers.
///
/// The pending login is consumed whatever comes of it. Unless the state
/// verifies against it, nothing else happens. Then the code is redeemed and
/// the profile fetched; a failure of either ends the callback with the store
/// untouched. The identity gets an account if it has none, under `uuid`; the
/// account as read back takes `session_id` as a new session handle; and the
/// record takes the handle, the account's internal id and its provider id.
pub open spec fn callback_flow(
    state: Seq<char>,
    token: Result<Seq<char>, TokenError>,
    profile: Result<ProfileView, UserError>,
    session: EphemeralSessionView,
    docs: Seq<AccountView>,
    uuid: Seq<char>,
    session_id: Seq<char>,
) -> (EphemeralSessionView, Seq<AccountView>, CallbackOutcome) {
    match rejection_of(session.auth, state) {
        Some(failure) => (consumed(session), docs, CallbackOutcome::Failed(failure)),
        None => match token {
            Err(error) => (
                consumed(session),
                docs,
                CallbackOutcome::Failed(token_failure(error)),
            ),
            Ok(_) => match profile {
                Err(_) => (
                    consumed(session),
                    docs,
                    CallbackOutcome::Failed(CallbackFailure::ProfileFailed),
                ),
                Ok(identity) => {
                    let account = login_account(docs, identity, uuid);
                    (
                        bound_session(
                            consumed(session),
                            session_id,
                            account.uuid,
                            account.github_id,
                        ),
                        with_login(docs, identity, uuid, session_id),
                        CallbackOutcome::Authenticated,
                    )
                },
            },
        },
    }
}

/// A text of the shape of an internal identifier.
pub open spec fn some_uuid() -> Seq<char> {
    Seq::new(
        36,
        |i: int|
            if i == 8 || i == 13 || i == 18 || i == 23 {
                '-'
            } else {
                '0'
            },
    )
}

/// A text of the shape of a session handle.
pub open spec fn some_session_id() -> Seq<char> {
    Seq::new(SESSION_ID_LEN as nat, |i: int| '0')
}

/// Identifiers of either shape exist.
pub proof fn lemma_identifiers_exist()
    ensures
        is_hyphenated_uuid(some_uuid()),
        is_alphanumeric_token(some_session_id(), SESSION_ID_LEN as nat),
{
}

/// Once the identity has an account, looking it up finds one of that
/// identity: the one it had, or the new one at the end.
pub proof fn lemma_with_account_found(docs: Seq<AccountView>, profile: ProfileView, uuid: Seq<char>)
    ensures
        first_match(with_account(docs, profile, uuid), by_github_id(profile.id)) is Some,
        login_account(docs, profile, uuid).github_id == profile.id,
        found(docs, by_github_id(profile.id)) is Some ==> login_account(docs, profile, uuid)
            == found(docs, by_github_id(profile.id)).unwrap(),
        found(docs, by_github_id(profile.id)) is None ==> {
            &&& first_match(with_account(docs, profile, uuid), by_github_id(profile.id)) == Some(
                docs.len() as int,
            )
            &&& login_account(docs, profile, uuid) == first_login_account(
                profile.id,
                profile.name,
                profile.email,
                uuid,
            )
        },
{
    let filter = by_github_id(profile.id);
    lemma_first_match_none(docs, filter);
    if found(docs, filter) is Some {
        let i = first_match(docs, filter).unwrap();
        assert(is_first_match(docs, filter, i));
    } else {
        let grown = with_account(docs, profile, uuid);
        assert(grown.take(docs.len() as int) =~= docs);
        lemma_first_match_is(grown, filter, docs.len() as int);
    }
}

/// Appending the login's handle changes exactly one document.
pub proof fn lemma_with_login_modifies(
    docs: Seq<AccountView>,
    profile: ProfileView,
    uuid: Seq<char>,
    session_id: Seq<char>,
)
    ensures
        modified_count(
            with_account(docs, profile, uuid),
            by_github_id(login_account(docs, profile, uuid).github_id),
            SessionUpdateView::Push(session_id),
        ) == 1,
{
    lemma_with_account_found(docs, profile, uuid);
    let grown = with_account(docs, profile, uuid);
    let filter = by_github_id(profile.id);
    let i = first_match(grown, filter).unwrap();
    lemma_first_match_none(grown, filter);
    assert(is_first_match(grown, filter, i));
    let update = SessionUpdateView::Push(session_id);
    lemma_apply_update_changes(update, grown[i]);
    assert(updated_at(grown, i, update)[i] != grown[i]);
}

/// What a callback run started from, and the identifiers it mints.
ghost struct FlowContext {
    state: Seq<char>,
    token: Result<Seq<char>, TokenError>,
    profile: Result<ProfileView, UserError>,
    session: EphemeralSessionView,
    docs: Seq<AccountView>,
    uuid: Seq<char>,
    session_id: Seq<char>,
}

/// The callback got past the session record and both provider calls.
spec fn identified(ctx: FlowContext) -> bool {
    &&& rejection_of(ctx.session.auth, ctx.state) is None
    &&& ctx.token is Ok
    &&& ctx.profile is Ok
}

/// A run that stands in `state` with `event` in hand has made of the record
/// and the store what the flow has made of them up to there.
spec fn on_track(
    ctx: FlowContext,
    state: CallbackStateView,
    event: CallbackEvent,
    session: EphemeralSessionView,
    docs: Seq<AccountView>,
) -> bool {
    let identity = ctx.profile->Ok_0;
    let account = login_account(ctx.docs, identity, ctx.uuid);
    match state {
        CallbackStateView::Fresh => {
            &&& event is Begin
            &&& session == ctx.session
            &&& docs == ctx.docs
        },
        CallbackStateView::ReadingAuth => {
            &&& event matches CallbackEvent::AuthRead(Ok(stored))
            &&& text_view(stored) == ctx.session.auth
            &&& session == ctx.session
            &&& docs == ctx.docs
        },
        CallbackStateView::RemovingAuth { rejection } => {
            &&& event is AuthRemoved
            &&& rejection == rejection_of(ctx.session.auth, ctx.state)
            &&& session == consumed(ctx.session)
            &&& docs == ctx.docs
        },
        CallbackStateView::ExchangingCode => {
            &&& event matches CallbackEvent::TokenReceived(reply)
            &&& token_reply_view(reply) == ctx.token
            &&& rejection_of(ctx.session.auth, ctx.state) is None
            &&& session == consumed(ctx.session)
            &&& docs == ctx.docs
        },
        CallbackStateView::FetchingProfile => {
            &&& event matches CallbackEvent::ProfileReceived(reply)
            &&& profile_reply_view(reply) == ctx.profile
            &&& rejection_of(ctx.session.auth, ctx.state) is None
            &&& ctx.token is Ok
            &&& session == consumed(ctx.session)
            &&& docs == ctx.docs
        },
        CallbackStateView::CheckingAccount { github_id, name, email } => {
            &&& event matches CallbackEvent::AccountFound(Ok(known))
            &&& account_view(known) == found(ctx.docs, by_github_id(identity.id))
            &&& identified(ctx)
            &&& identity == (ProfileView { id: github_id, name, email })
            &&& session == consumed(ctx.session)
            &&& docs == ctx.docs
        },
        CallbackStateView::InsertingAccount { github_id } => {
            &&& event is AccountInserted
            &&& identified(ctx)
            &&& identity.id == github_id
            &&& session == consumed(ctx.session)
            &&& docs == with_account(ctx.docs, identity, ctx.uuid)
        },
        CallbackStateView::FindingAccount { github_id } => {
            &&& event matches CallbackEvent::AccountFound(Ok(read_back))
            &&& account_view(read_back) == Some(account)
            &&& identified(ctx)
            &&& identity.id == github_id
            &&& session == consumed(ctx.session)
            &&& docs == with_account(ctx.docs, identity, ctx.uuid)
        },
        CallbackStateView::PushingSession { session_id, uuid, github_id } => {
            &&& event matches CallbackEvent::SessionPushed(Ok(modified))
            &&& modified == 1
            &&& identified(ctx)
            &&& session_id == ctx.session_id
            &&& uuid == account.uuid
            &&& github_id == account.github_id
            &&& session == consumed(ctx.session)
            &&& docs == with_login(ctx.docs, identity, ctx.uuid, ctx.session_id)
        },
        CallbackStateView::BindingSession => {
            &&& event matches CallbackEvent::SessionBound(Ok(_))
            &&& identified(ctx)
            &&& session == bound_session(
                consumed(ctx.session),
                ctx.session_id,
                account.uuid,
                account.github_id,
            )
            &&& docs == with_login(ctx.docs, identity, ctx.uuid, ctx.session_id)
        },
        CallbackStateView::Finished => false,
    }
}

/// With these identifiers minted, the flow takes the record and the store
/// from `before` to `after` and answers with `outcome`.
pub open spec fn flows_to(
    state: Seq<char>,
    token: Result<Seq<char>, TokenError>,
    profile: Result<ProfileView, UserError>,
    before: (EphemeralSessionView, Seq<AccountView>),
    after: (EphemeralSessionView, Seq<AccountView>),
    outcome: CallbackOutcome,
    uuid: Seq<char>,
    session_id: Seq<char>,
) -> bool {
    callback_flow(state, token, profile, before.0, before.1, uuid, session_id) == (
        after.0,
        after.1,
        outcome,
    )
}

/// Some identifiers of the right shapes make the flow end as given.
pub open spec fn callback_ends(
    state: Seq<char>,
    token: Result<Seq<char>, TokenError>,
    profile: Result<ProfileView, UserError>,
    before: (EphemeralSessionView, Seq<AccountView>),
    after: (EphemeralSessionView, Seq<AccountView>),
    outcome: CallbackOutcome,
) -> bool {
    exists|uuid: Seq<char>, session_id: Seq<char>|
        {
            &&& is_hyphenated_uuid(uuid)
            &&& is_alphanumeric_token(session_id, SESSION_ID_LEN as nat)
            &&& #[trigger] flows_to(state, token, profile, before, after, outcome, uuid, session_id)
        }
}

/// Runs a callback to its end against a session record and an account store
/// held in memory, with the provider's replies given.
///
/// The record, the store and the answer are what `callback_flow` gives for
/// the identifiers that were drawn on the way.
pub fn callback(
    session: &mut EphemeralSession,
    store: &mut AccountStore,
    provider: &ProviderReplies,
    info: &AuthRequest,
    config: &OAuthConfig,
) -> (outcome: CallbackOutcome)
    ensures
        callback_ends(
            info.state@,
            token_reply_view(provider.token),
            profile_reply_view(provider.profile),
            (old(session)@, old(store)@),
            (final(session)@, final(store)@),
            outcome,
        ),
{
    let ghost mut ctx = FlowContext {
        state: info.state@,
        token: token_reply_view(provider.token),
        profile: profile_reply_view(provider.profile),
        session: session@,
        docs: store@,
        uuid: some_uuid(),
        session_id: some_session_id(),
    };
    let mut state = CallbackState::Fresh;
    let mut event = CallbackEvent::Begin;
    proof {
        lemma_identifiers_exist();
    }
    loop
        invariant
            on_track(ctx, state@, event, session@, store@),
            ctx.state == info.state@,
            ctx.token == token_reply_view(provider.token),
            ctx.profile == profile_reply_view(provider.profile),
            ctx.session == old(session)@,
            ctx.docs == old(store)@,
            is_hyphenated_uuid(ctx.uuid),
            is_alphanumeric_token(ctx.session_id, SESSION_ID_LEN as nat),
        decreases 10 - phase(state@),
    {
        let ghost at = state@;
        let ghost had = event;
        let (next, action) = callback_step(config, info, state, event);
        proof {
            lemma_transition_progress(
                *config,
                *info,
                at,
                had,
                accepted_by(*info, had),
                minted_uuid(action@),
                minted_session_id(action@),
            );
            if ctx.profile is Ok {
                lemma_with_account_found(ctx.docs, ctx.profile->Ok_0, ctx.uuid);
            }
        }
        state = next;
        match action {
            CallbackAction::ReadAuth => {
                event = CallbackEvent::AuthRead(Ok(clone_text(&session.auth)));
            },
            CallbackAction::RemoveAuth => {
                session.remove_auth();
                event = CallbackEvent::AuthRemoved;
            },
            CallbackAction::ExchangeCode { url: _ } => {
                event = CallbackEvent::TokenReceived(clone_token_reply(&provider.token));
            },
            CallbackAction::FetchProfile { access_token: _ } => {
                event = CallbackEvent::ProfileReceived(clone_profile_reply(&provider.profile));
            },
            CallbackAction::FindAccount(criteria) => {
                event = CallbackEvent::AccountFound(Ok(find_account(store, criteria)));
            },
            CallbackAction::InsertAccount(account) => {
                proof {
                    ctx = FlowContext { uuid: account@.uuid, ..ctx };
                }
                insert_account(store, account);
                event = CallbackEvent::AccountInserted(Ok(()));
            },
            CallbackAction::PushSession { github_id, session_id } => {
                proof {
                    ctx = FlowContext { session_id: session_id@, ..ctx };
                    lemma_with_login_modifies(
                        ctx.docs,
                        ctx.profile->Ok_0,
                        ctx.uuid,
                        ctx.session_id,
                    );
                }
                let filter = AccountFilter::GithubId(github_id);
                let update = SessionUpdate::Push(session_id);
                event = CallbackEvent::SessionPushed(Ok(store.update_one(&filter, &update)));
            },
            CallbackAction::BindSession { session_id, uuid, github_id } => {
                session.bind(session_id, uuid, github_id);
                event = CallbackEvent::SessionBound(Ok(()));
            },
            CallbackAction::Respond(outcome) => {
                assert(flows_to(
                    info.state@,
                    token_reply_view(provider.token),
                    profile_reply_view(provider.profile),
                    (old(session)@, old(store)@),
                    (session@, store@),
                    outcome,
                    ctx.uuid,
                    ctx.session_id,
                ));
                return outcome;
            },
        }
    }
}

/// A callback leaves no pending login behind, whatever came of it, and
/// leaves the record's other fields alone unless it succeeded.
pub proof fn lemma_callback_consumes_pending_login(
    state: Seq<char>,
    token: Result<Seq<char>, TokenError>,
    profile: Result<ProfileView, UserError>,
    session: EphemeralSessionView,
    docs: Seq<AccountView>,
    uuid: Seq<char>,
    session_id: Seq<char>,
)
    ensures
        ({
            let end = callback_flow(state, token, profile, session, docs, uuid, session_id);
            &&& end.0.auth is None
            &&& end.2 is Failed ==> end.0 == consumed(session) && end.1 == docs
        }),
{
}

/// A state is accepted against the record that its own digest was stored
/// in: the callback gets past the state check.
pub proof fn lemma_issued_state_is_accepted(
    session: EphemeralSessionView,
    state: Seq<char>,
    digest: Seq<char>,
)
    requires
        digest_accepts(digest, state),
    ensures
        rejection_of(pending_login(session, digest).auth, state) is None,
{
}

/// A callback that follows another on the same record fails for want of a
/// pending login, and touches neither the record nor the store. It does so
/// whatever state it presents, the one that was used before included, and
/// whatever came of the first.
pub proof fn lemma_replay_is_rejected(
    first_state: Seq<char>,
    first_token: Result<Seq<char>, TokenError>,
    first_profile: Result<ProfileView, UserError>,
    session: EphemeralSessionView,
    docs: Seq<AccountView>,
    first_uuid: Seq<char>,
    first_session_id: Seq<char>,
    state: Seq<char>,
    token: Result<Seq<char>, TokenError>,
    profile: Result<ProfileView, UserError>,
    uuid: Seq<char>,
    session_id: Seq<char>,
)
    ensures
        ({
            let first = callback_flow(
                first_state,
                first_token,
                first_profile,
                session,
                docs,
                first_uuid,
                first_session_id,
            );
            let second = callback_flow(state, token, profile, first.0, first.1, uuid, session_id);
            &&& second.2 == CallbackOutcome::Failed(CallbackFailure::AuthMissing)
            &&& failure_kind(CallbackFailure::AuthMissing)
                == ErrorKind::VerificationFailure
            &&& second.0 == first.0
            &&& second.1 == first.1
        }),
{
}

/// A callback whose state does not verify against the stored digest fails
/// with a verification failure, deletes the digest and does nothing else.
pub proof fn lemma_unverified_callback_is_rejected(
    state: Seq<char>,
    token: Result<Seq<char>, TokenError>,
    profile: Result<ProfileView, UserError>,
    session: EphemeralSessionView,
    docs: Seq<AccountView>,
    uuid: Seq<char>,
    session_id: Seq<char>,
)
    requires
        session.auth is Some,
        !digest_accepts(session.auth.unwrap(), state),
    ensures
        callback_flow(state, token, profile, session, docs, uuid, session_id) == (
            consumed(session),
            docs,
            CallbackOutcome::Failed(CallbackFailure::VerificationFailed),
        ),
        failure_kind(CallbackFailure::VerificationFailed)
            == ErrorKind::VerificationFailure,
{
}

/// A callback shrinks no session list and rewrites none. Every account that
/// was in the store is still there, at its place and unchanged but for at
/// most one, whose session list has grown by the one new handle at its end.
/// At most one account is new.
pub proof fn lemma_callback_only_appends(
    state: Seq<char>,
    token: Result<Seq<char>, TokenError>,
    profile: Result<ProfileView, UserError>,
    session: EphemeralSessionView,
    docs: Seq<AccountView>,
    uuid: Seq<char>,
    session_id: Seq<char>,
)
    ensures
        ({
            let after = callback_flow(state, token, profile, session, docs, uuid, session_id).1;
            &&& docs.len() <= after.len() <= docs.len() + 1
            &&& forall|j: int|
                0 <= j < docs.len() ==> {
                    ||| (#[trigger] after[j]) == docs[j]
                    ||| after[j] == (AccountView {
                        sessions: docs[j].sessions.push(session_id),
                        ..docs[j]
                    })
                }
            &&& forall|j: int, k: int|
                0 <= j < k < docs.len() && (#[trigger] after[j]) != docs[j] ==> (
                #[trigger] after[k]) == docs[k]
        }),
{
    let end = callback_flow(state, token, profile, session, docs, uuid, session_id);
    if end.2 is Authenticated {
        let identity = profile->Ok_0;
        lemma_with_account_found(docs, identity, uuid);
        let grown = with_account(docs, identity, uuid);
        lemma_update_changes_one_session_list(
            grown,
            by_github_id(identity.id),
            SessionUpdateView::Push(session_id),
        );
        assert forall|j: int| 0 <= j < docs.len() implies grown[j] == docs[j] by {}
    }
}

/// The first login of an identity creates exactly one account, not elevated,
/// whose only session is the new handle, and binds the record to it. The
/// accounts that were there are as they were.
pub proof fn lemma_first_login_creates_one_account(
    state: Seq<char>,
    token: Result<Seq<char>, TokenError>,
    identity: ProfileView,
    session: EphemeralSessionView,
    docs: Seq<AccountView>,
    uuid: Seq<char>,
    session_id: Seq<char>,
)
    requires
        rejection_of(session.auth, state) is None,
        token is Ok,
        found(docs, by_github_id(identity.id)) is None,
    ensures
        ({
            let end = callback_flow(state, token, Ok(identity), session, docs, uuid, session_id);
            &&& end.2 == CallbackOutcome::Authenticated
            &&& end.1 == docs.push(
                AccountView {
                    sessions: seq![session_id],
                    ..first_login_account(identity.id, identity.name, identity.email, uuid)
                },
            )
            &&& end.0 == bound_session(consumed(session), session_id, uuid, identity.id)
        }),
{
    lemma_with_account_found(docs, identity, uuid);
    let grown = with_account(docs, identity, uuid);
    let end = callback_flow(state, token, Ok(identity), session, docs, uuid, session_id);
    let created = AccountView {
        sessions: seq![session_id],
        ..first_login_account(identity.id, identity.name, identity.email, uuid)
    };
    assert(Seq::<Seq<char>>::empty().push(session_id) =~= seq![session_id]);
    assert(end.1 =~= docs.push(created));
}

/// A further login of an identity creates no account. The first account of
/// the identity takes the new handle at the end of its session list, so the
/// handles of its earlier logins are all still there; every other account is
/// as it was; and the record is bound to that account.
pub proof fn lemma_repeat_login_adds_one_session(
    state: Seq<char>,
    token: Result<Seq<char>, TokenError>,
    identity: ProfileView,
    session: EphemeralSessionView,
    docs: Seq<AccountView>,
    uuid: Seq<char>,
    session_id: Seq<char>,
)
    requires
        rejection_of(session.auth, state) is None,
        token is Ok,
        found(docs, by_github_id(identity.id)) is Some,
    ensures
        ({
            let end = callback_flow(state, token, Ok(identity), session, docs, uuid, session_id);
            let i = first_match(docs, by_github_id(identity.id)).unwrap();
            &&& end.2 == CallbackOutcome::Authenticated
            &&& 0 <= i < docs.len()
            &&& end.1 == docs.update(
                i,
                AccountView { sessions: docs[i].sessions.push(session_id), ..docs[i] },
            )
            &&& end.1[i].sessions.len() == docs[i].sessions.len() + 1
            &&& forall|handle: Seq<char>|
                #[trigger] has_session(docs[i], handle) ==> has_session(end.1[i], handle)
            &&& end.0 == bound_session(consumed(session), session_id, docs[i].uuid, identity.id)
        }),
{
    lemma_with_account_found(docs, identity, uuid);
    let filter = by_github_id(identity.id);
    let i = first_match(docs, filter).unwrap();
    lemma_first_match_none(docs, filter);
    assert(is_first_match(docs, filter, i));
    let end = callback_flow(state, token, Ok(identity), session, docs, uuid, session_id);
    assert forall|handle: Seq<char>| #[trigger] has_session(docs[i], handle) implies has_session(
        end.1[i],
        handle,
    ) by {
        let k = choose|k: int| 0 <= k < docs[i].sessions.len() && docs[i].sessions[k] == handle;
        assert(end.1[i].sessions[k] == handle);
    }
}

/// The record that a successful callback leaves resolves, against the store
/// that it leaves, to the account that the login landed in, the new handle
/// in its session list.
pub proof fn lemma_login_resolves(
    state: Seq<char>,
    token: Result<Seq<char>, TokenError>,
    identity: ProfileView,
    session: EphemeralSessionView,
    docs: Seq<AccountView>,
    uuid: Seq<char>,
    session_id: Seq<char>,
)
    requires
        rejection_of(session.auth, state) is None,
        token is Ok,
    ensures
        ({
            let end = callback_flow(state, token, Ok(identity), session, docs, uuid, session_id);
            let account = login_account(docs, identity, uuid);
            resolved(end.1, end.0) == Ok::<AccountView, SessionError>(
                AccountView { sessions: account.sessions.push(session_id), ..account },
            )
        }),
{
    lemma_with_account_found(docs, identity, uuid);
    let grown = with_account(docs, identity, uuid);
    let by_id = by_github_id(identity.id);
    let i = first_match(grown, by_id).unwrap();
    lemma_first_match_none(grown, by_id);
    assert(is_first_match(grown, by_id, i));
    let account = grown[i];
    let end = callback_flow(state, token, Ok(identity), session, docs, uuid, session_id);
    let after = end.1;
    let triple = by_triple(account.uuid, account.github_id, session_id);
    assert(after[i].sessions[account.sessions.len() as int] == session_id);
    assert(filter_matches(triple, after[i]));
    assert forall|j: int| 0 <= j < i implies !filter_matches(triple, #[trigger] after.take(i)[j]) by {
        assert(after.take(i)[j] == grown[j]);
        assert(grown.take(i)[j] == grown[j]);
        assert(!filter_matches(by_id, grown.take(i)[j]));
    }
    lemma_first_match_is(after, triple, i);
}

} // verus!
