//! Durable accounts and the session handles embedded in them.

use crate::fresh::{generate_session_id, is_alphanumeric_token, SESSION_ID_LEN};
use crate::outcome::{Answer, ErrorKind, StoreFailure};
use crate::session::{
    bound_session, first_missing, EphemeralSession, EphemeralSessionView, SessionField,
    SessionTriple,
};
use crate::store::{
    account_view, filter_matches, first_match, found, has_session, is_first_match,
    lemma_first_match_exists, lemma_first_match_none, no_match, triple_matches,
    updated, AccountFilter, AccountFilterView, AccountStore, SessionUpdate, SessionUpdateView,
};
use vstd::prelude::*;

verus! {

/// One authenticated login instance: an opaque identifier and nothing else.
#[derive(Debug)]
pub struct Session {
    pub session_id: String,
}

impl View for Session {
    type V = Seq<char>;

    open spec fn view(&self) -> Seq<char> {
        self.session_id@
    }
}

impl Clone for Session {
    fn clone(&self) -> (res: Self)
        ensures
            res@ == self@,
    {
        Session { session_id: self.session_id.clone() }
    }
}

/// What an [`Account`] is, as mathematics.
pub ghost struct AccountView {
    pub name: Option<Seq<char>>,
    pub uuid: Seq<char>,
    pub github_id: u64,
    pub email: Option<Seq<char>>,
    pub elevated: bool,
    pub sessions: Seq<Seq<char>>,
}

/// The durable identity record.
///
/// `github_id` is the provider's key for the identity and `uuid` the locally
/// generated one that other services refer to. `sessions` lists, in the order
/// in which they were appended, the handles of every login that is still valid;
/// the same handle may occur more than once.
#[derive(Debug)]
pub struct Account {
    pub name: Option<String>,
    pub uuid: String,
    pub github_id: u64,
    pub email: Option<String>,
    pub elevated: bool,
    pub sessions: Vec<Session>,
}

/// The view of an optional text.
pub open spec fn text_view(text: Option<String>) -> Option<Seq<char>> {
    match text {
        Some(s) => Some(s@),
        None => None,
    }
}

/// The views of a list of session handles, in order.
pub open spec fn handles_view(sessions: Seq<Session>) -> Seq<Seq<char>> {
    sessions.map_values(|s: Session| s@)
}

impl View for Account {
    type V = AccountView;

    open spec fn view(&self) -> AccountView {
        AccountView {
            name: text_view(self.name),
            uuid: self.uuid@,
            github_id: self.github_id,
            email: text_view(self.email),
            elevated: self.elevated,
            sessions: handles_view(self.sessions@),
        }
    }
}

/// Copies an optional text.
pub fn clone_text(text: &Option<String>) -> (res: Option<String>)
    ensures
        text_view(res) == text_view(*text),
{
    match text {
        Some(s) => Some(s.clone()),
        None => None,
    }
}

/// Copies a list of session handles.
pub fn clone_sessions(sessions: &Vec<Session>) -> (res: Vec<Session>)
    ensures
        handles_view(res@) == handles_view(sessions@),
{
    let mut res: Vec<Session> = Vec::new();
    let mut i: usize = 0;
    while i < sessions.len()
        invariant
            i <= sessions.len(),
            res.len() == i,
            forall|j: int| 0 <= j < i ==> res[j]@ == sessions[j]@,
        decreases sessions.len() - i,
    {
        res.push(sessions[i].clone());
        i = i + 1;
    }
    assert(handles_view(res@) =~= handles_view(sessions@));
    res
}

impl Clone for Account {
    fn clone(&self) -> (res: Self)
        ensures
            res@ == self@,
    {
        Account {
            name: clone_text(&self.name),
            uuid: self.uuid.clone(),
            github_id: self.github_id,
            email: clone_text(&self.email),
            elevated: self.elevated,
            sessions: clone_sessions(&self.sessions),
        }
    }
}

/// Selects the accounts of one provider identity.
#[derive(Debug, Clone, Copy, PartialEq, Eq, Structural)]
pub struct Criteria {
    pub github_id: u64,
}

/// The account record of an identity that has never logged in before: not
/// elevated and without sessions.
pub open spec fn first_login_account(
    github_id: u64,
    name: Option<Seq<char>>,
    email: Option<Seq<char>>,
    uuid: Seq<char>,
) -> AccountView {
    AccountView { name, uuid, github_id, email, elevated: false, sessions: Seq::empty() }
}

impl Account {
    /// The account that the first login of an identity creates.
    pub fn first_login(
        github_id: u64,
        name: Option<String>,
        email: Option<String>,
        uuid: String,
    ) -> (res: Account)
        ensures
            res@ == first_login_account(github_id, text_view(name), text_view(email), uuid@),
    {
        let account = Account { name, uuid, github_id, email, elevated: false, sessions: Vec::new() };
        assert(handles_view(account.sessions@) =~= Seq::<Seq<char>>::empty());
        account
    }
}

/// Why a session record did not resolve to an account.
#[derive(Debug, Clone, Copy, PartialEq, Eq, Structural)]
pub enum SessionError {
    /// The record lacks this field of a completed login.
    NoneFound(SessionField),
    /// No account carries the record's three fields.
    AccountNotFound,
    /// A store did not answer, so it is not known whether an account does.
    StoreUnavailable,
}

/// The kind that a resolution error belongs to.
pub open spec fn session_error_kind(error: SessionError) -> ErrorKind {
    match error {
        SessionError::NoneFound(_) => ErrorKind::SessionAbsent,
        SessionError::AccountNotFound => ErrorKind::AccountNotFound,
        SessionError::StoreUnavailable => ErrorKind::TransportFailure,
    }
}

/// The log line of a resolution error.
pub open spec fn session_error_message(error: SessionError) -> Seq<char> {
    match error {
        SessionError::NoneFound(SessionField::Session) => "session id is not found"@,
        SessionError::NoneFound(SessionField::Uuid) => "uuid is not found"@,
        SessionError::NoneFound(SessionField::ProviderId) => "provider id is not found"@,
        SessionError::AccountNotFound => "no account carries the session"@,
        SessionError::StoreUnavailable => "a store did not answer"@,
    }
}

/// What a request is refused with when its session record does not resolve:
/// unauthorized where the record is incomplete or no account carries it, a
/// server error where a store failed. The body is empty either way: nothing
/// of the error reaches the client.
pub open spec fn refusal(error: SessionError) -> (u16, Seq<char>) {
    match error {
        SessionError::NoneFound(_) => (401, Seq::empty()),
        SessionError::AccountNotFound => (401, Seq::empty()),
        SessionError::StoreUnavailable => (500, Seq::empty()),
    }
}

impl SessionError {
    /// The kind of the error.
    pub fn kind(&self) -> (res: ErrorKind)
        ensures
            res == session_error_kind(*self),
    {
        match self {
            SessionError::NoneFound(_) => ErrorKind::SessionAbsent,
            SessionError::AccountNotFound => ErrorKind::AccountNotFound,
            SessionError::StoreUnavailable => ErrorKind::TransportFailure,
        }
    }

    /// A line for the log that says what was missing. It is not for the
    /// client.
    pub fn message(&self) -> (res: &'static str)
        ensures
            res@ == session_error_message(*self),
    {
        match self {
            SessionError::NoneFound(SessionField::Session) => "session id is not found",
            SessionError::NoneFound(SessionField::Uuid) => "uuid is not found",
            SessionError::NoneFound(SessionField::ProviderId) => "provider id is not found",
            SessionError::AccountNotFound => "no account carries the session",
            SessionError::StoreUnavailable => "a store did not answer",
        }
    }

    /// What the client is answered with.
    pub fn answer(&self) -> (res: Answer)
        ensures
            res@ == refusal(*self),
    {
        proof {
            reveal_strlit("");
        }
        let body = "";
        assert(body@ =~= Seq::<char>::empty());
        match self {
            SessionError::NoneFound(_) => Answer { status: 401, body },
            SessionError::AccountNotFound => Answer { status: 401, body },
            SessionError::StoreUnavailable => Answer { status: 500, body },
        }
    }
}

/// The filter that admits the accounts of one provider identity.
pub open spec fn by_github_id(github_id: u64) -> AccountFilterView {
    AccountFilterView::GithubId(github_id)
}

/// The filter that admits the accounts carrying all three of an internal id,
/// a provider id and a session handle.
pub open spec fn by_triple(
    uuid: Seq<char>,
    github_id: u64,
    session_id: Seq<char>,
) -> AccountFilterView {
    AccountFilterView::Triple { uuid, github_id, session_id }
}

/// Adds an account to the store.
pub fn insert_account(store: &mut AccountStore, account: Account)
    ensures
        final(store)@ == old(store)@.push(account@),
{
    store.insert_one(account)
}

/// The first account of a provider identity, if the store has one.
pub fn find_account(store: &AccountStore, criteria: Criteria) -> (res: Option<Account>)
    ensures
        account_view(res) == found(store@, by_github_id(criteria.github_id)),
{
    store.find_one(&AccountFilter::GithubId(criteria.github_id))
}

/// Tells whether the store has an account of a provider identity.
pub fn account_exists(store: &AccountStore, criteria: Criteria) -> (res: bool)
    ensures
        res == found(store@, by_github_id(criteria.github_id)).is_some(),
{
    find_account(store, criteria).is_some()
}

/// What appending a handle to the account of a provider identity returns:
/// the handle, or that nothing was modified where the store has no such
/// account.
pub open spec fn append_result(
    docs: Seq<AccountView>,
    github_id: u64,
    session_id: Seq<char>,
) -> Result<Seq<char>, StoreFailure> {
    if first_match(docs, by_github_id(github_id)) is Some {
        Ok(session_id)
    } else {
        Err(StoreFailure::NothingModified)
    }
}

/// The view of a text or a failure.
pub open spec fn text_result(res: Result<String, StoreFailure>) -> Result<Seq<char>, StoreFailure> {
    match res {
        Ok(s) => Ok(s@),
        Err(e) => Err(e),
    }
}

/// What an append comes to, given how many documents the store says it
/// modified: the handle, unless it modified none.
pub open spec fn session_result(modified: u64, session_id: Seq<char>) -> Result<
    Seq<char>,
    StoreFailure,
> {
    if modified == 0 {
        Err(StoreFailure::NothingModified)
    } else {
        Ok(session_id)
    }
}

/// Decides what an append has come to from the number of documents that the
/// store says it modified.
pub fn session_created(modified: u64, session_id: String) -> (res: Result<String, StoreFailure>)
    ensures
        text_result(res) == session_result(modified, session_id@),
{
    if modified == 0 {
        Err(StoreFailure::NothingModified)
    } else {
        Ok(session_id)
    }
}

/// Appends a given handle to the first account of a provider identity, in
/// one conditional update.
pub fn append_session(store: &mut AccountStore, github_id: u64, session_id: String) -> (res:
    Result<String, StoreFailure>)
    ensures
        final(store)@ == updated(
            old(store)@,
            by_github_id(github_id),
            SessionUpdateView::Push(session_id@),
        ),
        text_result(res) == append_result(old(store)@, github_id, session_id@),
{
    let filter = AccountFilter::GithubId(github_id);
    let update = SessionUpdate::Push(session_id.clone());
    let modified = store.update_one(&filter, &update);
    session_created(modified, session_id)
}

/// Mints a session handle and appends it to the first account of a provider
/// identity. Where the store has no such account, nothing changes.
pub fn create_session(store: &mut AccountStore, github_id: u64) -> (res: Result<
    String,
    StoreFailure,
>)
    ensures
        match res {
            Ok(session_id) => {
                &&& is_alphanumeric_token(session_id@, SESSION_ID_LEN as nat)
                &&& first_match(old(store)@, by_github_id(github_id)) is Some
                &&& final(store)@ == updated(
                    old(store)@,
                    by_github_id(github_id),
                    SessionUpdateView::Push(session_id@),
                )
            },
            Err(failure) => {
                &&& failure == StoreFailure::NothingModified
                &&& first_match(old(store)@, by_github_id(github_id)) is None
                &&& final(store)@ == old(store)@
            },
        },
{
    let session_id = generate_session_id();
    append_session(store, github_id, session_id)
}

/// The first account that carries all three of an internal id, a provider id
/// and a session handle.
pub fn find_account_by_session_id(
    store: &AccountStore,
    uuid: String,
    session_id: String,
    github_id: u64,
) -> (res: Option<Account>)
    ensures
        account_view(res) == found(store@, by_triple(uuid@, github_id, session_id@)),
{
    store.find_one(&AccountFilter::Triple { uuid, github_id, session_id })
}

/// Takes a session handle out of the first account that holds it, every
/// occurrence of it, and returns that account as it was before.
pub fn delete_session(store: &mut AccountStore, session_id: &str) -> (res: Option<Account>)
    ensures
        account_view(res) == found(old(store)@, AccountFilterView::SessionId(session_id@)),
        final(store)@ == updated(
            old(store)@,
            AccountFilterView::SessionId(session_id@),
            SessionUpdateView::Pull(session_id@),
        ),
{
    let filter = AccountFilter::SessionId(String::from_str(session_id));
    let update = SessionUpdate::Pull(String::from_str(session_id));
    store.find_one_and_update(&filter, &update)
}

/// The filter that a session triple is looked up by.
pub fn triple_filter(triple: SessionTriple) -> (res: AccountFilter)
    ensures
        res@ == by_triple(triple.uuid@, triple.provider_id, triple.session_id@),
{
    AccountFilter::Triple {
        uuid: triple.uuid,
        github_id: triple.provider_id,
        session_id: triple.session_id,
    }
}

/// What the account store's answer to a lookup by triple resolves to.
pub open spec fn lookup_result(found: Result<Option<Account>, StoreFailure>) -> Result<
    AccountView,
    SessionError,
> {
    match found {
        Ok(Some(account)) => Ok(account@),
        Ok(None) => Err(SessionError::AccountNotFound),
        Err(_) => Err(SessionError::StoreUnavailable),
    }
}

/// The view of an account or an error.
pub open spec fn resolution_view(res: Result<Account, SessionError>) -> Result<
    AccountView,
    SessionError,
> {
    match res {
        Ok(account) => Ok(account@),
        Err(e) => Err(e),
    }
}

/// Turns the account store's answer to a lookup by triple into the account
/// or the reason why there is none: no account carries the triple, or the
/// store did not answer, which says nothing of whether one does.
pub fn session_lookup(found: Result<Option<Account>, StoreFailure>) -> (res: Result<
    Account,
    SessionError,
>)
    ensures
        resolution_view(res) == lookup_result(found),
{
    match found {
        Ok(Some(account)) => Ok(account),
        Ok(None) => Err(SessionError::AccountNotFound),
        Err(_) => Err(SessionError::StoreUnavailable),
    }
}

/// What a session record resolves to against a collection of accounts: the
/// first account that carries the record's internal id, provider id and
/// session handle, all three.
pub open spec fn resolved(docs: Seq<AccountView>, session: EphemeralSessionView) -> Result<
    AccountView,
    SessionError,
> {
    match first_missing(session) {
        Some(field) => Err(SessionError::NoneFound(field)),
        None => match found(
            docs,
            by_triple(session.uuid.unwrap(), session.provider_id.unwrap(), session.session.unwrap()),
        ) {
            Some(account) => Ok(account),
            None => Err(SessionError::AccountNotFound),
        },
    }
}

/// Resolves a session record to the account it belongs to.
///
/// Neither the record nor the store is changed.
pub fn get_account_from_session(store: &AccountStore, session: &EphemeralSession) -> (res: Result<
    Account,
    SessionError,
>)
    ensures
        resolution_view(res) == resolved(store@, session@),
{
    let triple = match session.triple() {
        Ok(triple) => triple,
        Err(field) => {
            return Err(SessionError::NoneFound(field));
        },
    };
    let filter = triple_filter(triple);
    session_lookup(Ok(store.find_one(&filter)))
}

/// Binds a completed login into a session record.
pub fn set_account_session(
    session_id: &String,
    uuid: &String,
    git_id: &u64,
    session: &mut EphemeralSession,
)
    ensures
        final(session)@ == bound_session(old(session)@, session_id@, uuid@, *git_id),
{
    session.bind(session_id.clone(), uuid.clone(), *git_id)
}

/// Resolving reads the record's three login fields and nothing else of it:
/// two records that agree on them resolve alike, whatever else they hold and
/// however often or in whatever order they are resolved.
pub proof fn lemma_resolution_reads_the_triple(
    docs: Seq<AccountView>,
    first: EphemeralSessionView,
    second: EphemeralSessionView,
)
    requires
        first.session == second.session,
        first.uuid == second.uuid,
        first.provider_id == second.provider_id,
    ensures
        resolved(docs, first) == resolved(docs, second),
{
}

/// What each result of a resolution says of the record and the store: an
/// account that comes back is in the store and carries the record's three
/// fields; a missing field is the first that the record lacks; and no account
/// is found only where the record is complete and no account carries all
/// three. The in-memory store always answers, so no resolution against it
/// fails for want of a store.
pub proof fn lemma_resolution_is_triple_match(docs: Seq<AccountView>, session: EphemeralSessionView)
    ensures
        match resolved(docs, session) {
            Ok(account) => {
                &&& first_missing(session) is None
                &&& docs.contains(account)
                &&& triple_matches(
                    account,
                    session.uuid.unwrap(),
                    session.provider_id.unwrap(),
                    session.session.unwrap(),
                )
            },
            Err(SessionError::NoneFound(field)) => first_missing(session) == Some(field),
            Err(SessionError::StoreUnavailable) => false,
            Err(SessionError::AccountNotFound) => {
                &&& first_missing(session) is None
                &&& forall|j: int|
                    0 <= j < docs.len() ==> !triple_matches(
                        #[trigger] docs[j],
                        session.uuid.unwrap(),
                        session.provider_id.unwrap(),
                        session.session.unwrap(),
                    )
            },
        },
{
    if first_missing(session) is None {
        let filter = by_triple(
            session.uuid.unwrap(),
            session.provider_id.unwrap(),
            session.session.unwrap(),
        );
        lemma_first_match_none(docs, filter);
        if first_match(docs, filter) is Some {
            let i = first_match(docs, filter).unwrap();
            assert(is_first_match(docs, filter, i));
        } else {
            assert forall|j: int| 0 <= j < docs.len() implies !triple_matches(
                #[trigger] docs[j],
                session.uuid.unwrap(),
                session.provider_id.unwrap(),
                session.session.unwrap(),
            ) by {
                assert(!filter_matches(filter, docs[j]));
            }
        }
    }
}

/// A complete record resolves wherever some account carries its three fields.
pub proof fn lemma_valid_triple_resolves(
    docs: Seq<AccountView>,
    session: EphemeralSessionView,
    k: int,
)
    requires
        first_missing(session) is None,
        0 <= k < docs.len(),
        triple_matches(
            docs[k],
            session.uuid.unwrap(),
            session.provider_id.unwrap(),
            session.session.unwrap(),
        ),
    ensures
        resolved(docs, session) is Ok,
{
    let filter = by_triple(
        session.uuid.unwrap(),
        session.provider_id.unwrap(),
        session.session.unwrap(),
    );
    lemma_first_match_exists(docs, filter, k);
}

/// A session handle does not resolve against another account's identity:
/// where every account that holds the record's handle differs from the record
/// in its internal id or its provider id, no account is found.
pub proof fn lemma_cross_account_replay_rejected(
    docs: Seq<AccountView>,
    session: EphemeralSessionView,
)
    requires
        first_missing(session) is None,
        forall|j: int|
            0 <= j < docs.len() && has_session(#[trigger] docs[j], session.session.unwrap()) ==> !(
            docs[j].uuid == session.uuid.unwrap() && docs[j].github_id
                == session.provider_id.unwrap()),
    ensures
        resolved(docs, session) == Err::<AccountView, SessionError>(
            SessionError::AccountNotFound,
        ),
        session_error_kind(SessionError::AccountNotFound)
            == ErrorKind::AccountNotFound,
{
    let filter = by_triple(
        session.uuid.unwrap(),
        session.provider_id.unwrap(),
        session.session.unwrap(),
    );
    assert(no_match(docs, filter));
    lemma_first_match_none(docs, filter);
}

/// What a protected resource answers a resolution with: success and an
/// empty body for an account, the error's refusal otherwise.
pub open spec fn protected_answer(resolution: Result<AccountView, SessionError>) -> (
    u16,
    Seq<char>,
) {
    match resolution {
        Ok(_) => (200, Seq::empty()),
        Err(error) => refusal(error),
    }
}

/// What a protected resource answers with, given how the session record
/// resolved.
pub fn guard(resolution: &Result<Account, SessionError>) -> (res: Answer)
    ensures
        res@ == protected_answer(resolution_view(*resolution)),
{
    match resolution {
        Ok(_) => {
            proof {
                reveal_strlit("");
            }
            let body = "";
            assert(body@ =~= Seq::<char>::empty());
            Answer { status: 200, body }
        },
        Err(error) => error.answer(),
    }
}

/// Answers a request for the protected resource: resolves the session
/// record first, and lets the request through only with an account.
pub fn protected(store: &AccountStore, session: &EphemeralSession) -> (res: Answer)
    ensures
        res@ == protected_answer(resolved(store@, session@)),
{
    let resolution = get_account_from_session(store, session);
    guard(&resolution)
}

/// A refusal tells the client nothing of why: its body is empty, whatever
/// the error, and its status tells a failed store from a failed login and
/// nothing more.
pub proof fn lemma_refusal_leaks_nothing(error: SessionError)
    ensures
        refusal(error).1.len() == 0,
        refusal(error).0 == if session_error_kind(error) == ErrorKind::TransportFailure {
            500u16
        } else {
            401u16
        },
{
}

/// A lookup that the store failed is a failure of transport, answered as a
/// server error, and is told apart from a lookup that found no account,
/// which is answered as unauthorized.
pub proof fn lemma_failed_lookup_is_transport_failure(found: Result<Option<Account>, StoreFailure>)
    ensures
        found is Err ==> {
            &&& lookup_result(found) == Err::<AccountView, SessionError>(
                SessionError::StoreUnavailable,
            )
            &&& session_error_kind(SessionError::StoreUnavailable) == ErrorKind::TransportFailure
            &&& refusal(SessionError::StoreUnavailable).0 == 500
        },
        found == Ok::<Option<Account>, StoreFailure>(None) ==> {
            &&& lookup_result(found) == Err::<AccountView, SessionError>(
                SessionError::AccountNotFound,
            )
            &&& session_error_kind(SessionError::AccountNotFound) == ErrorKind::AccountNotFound
            &&& refusal(SessionError::AccountNotFound).0 == 401
        },
{
}

} // verus!
