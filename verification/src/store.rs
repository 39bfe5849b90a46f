//! The account store's narrow interface and an in-memory collection that
//! gives it a meaning.
//!
//! An operation names the documents it is about by a filter and changes a
//! session list by one update applied to one document. The store of a running
//! service is a database; `AccountStore` keeps the same documents in a vector,
//! in insertion order, and answers each operation from the first document that
//! the filter admits.

use crate::user::{handles_view, Account, AccountView, Session};
use vstd::prelude::*;

verus! {

/// Which accounts an operation is about.
#[derive(Debug)]
pub enum AccountFilter {
    /// The accounts of one provider identity.
    GithubId(u64),
    /// The accounts that carry this internal id, this provider id and this
    /// session handle, all three.
    Triple { uuid: String, github_id: u64, session_id: String },
    /// The accounts that hold this session handle.
    SessionId(String),
}

/// What an [`AccountFilter`] is, as mathematics.
pub ghost enum AccountFilterView {
    GithubId(u64),
    Triple { uuid: Seq<char>, github_id: u64, session_id: Seq<char> },
    SessionId(Seq<char>),
}

impl View for AccountFilter {
    type V = AccountFilterView;

    open spec fn view(&self) -> AccountFilterView {
        match *self {
            AccountFilter::GithubId(id) => AccountFilterView::GithubId(id),
            AccountFilter::Triple { uuid, github_id, session_id } => AccountFilterView::Triple {
                uuid: uuid@,
                github_id,
                session_id: session_id@,
            },
            AccountFilter::SessionId(session_id) => AccountFilterView::SessionId(session_id@),
        }
    }
}

/// One atomic change to an account's session list.
#[derive(Debug)]
pub enum SessionUpdate {
    /// Append this handle.
    Push(String),
    /// Take every handle equal to this one out.
    Pull(String),
}

/// What a [`SessionUpdate`] is, as mathematics.
pub ghost enum SessionUpdateView {
    Push(Seq<char>),
    Pull(Seq<char>),
}

impl View for SessionUpdate {
    type V = SessionUpdateView;

    open spec fn view(&self) -> SessionUpdateView {
        match *self {
            SessionUpdate::Push(session_id) => SessionUpdateView::Push(session_id@),
            SessionUpdate::Pull(session_id) => SessionUpdateView::Pull(session_id@),
        }
    }
}

/// The account holds the handle.
pub open spec fn has_session(account: AccountView, session_id: Seq<char>) -> bool {
    account.sessions.contains(session_id)
}

/// The account carries all three of an internal id, a provider id and a
/// session handle.
pub open spec fn triple_matches(
    account: AccountView,
    uuid: Seq<char>,
    github_id: u64,
    session_id: Seq<char>,
) -> bool {
    &&& account.uuid == uuid
    &&& account.github_id == github_id
    &&& has_session(account, session_id)
}

/// The filter admits the account.
pub open spec fn filter_matches(filter: AccountFilterView, account: AccountView) -> bool {
    match filter {
        AccountFilterView::GithubId(id) => account.github_id == id,
        AccountFilterView::Triple { uuid, github_id, session_id } => triple_matches(
            account,
            uuid,
            github_id,
            session_id,
        ),
        AccountFilterView::SessionId(session_id) => has_session(account, session_id),
    }
}

/// A list of handles without those equal to `session_id`, the rest in order.
pub open spec fn remove_all(sessions: Seq<Seq<char>>, session_id: Seq<char>) -> Seq<Seq<char>>
    decreases sessions.len(),
{
    if sessions.len() == 0 {
        sessions
    } else if sessions.last() == session_id {
        remove_all(sessions.drop_last(), session_id)
    } else {
        remove_all(sessions.drop_last(), session_id).push(sessions.last())
    }
}

/// The account after an update: its session list changed, nothing else.
pub open spec fn apply_update(update: SessionUpdateView, account: AccountView) -> AccountView {
    match update {
        SessionUpdateView::Push(session_id) => AccountView {
            sessions: account.sessions.push(session_id),
            ..account
        },
        SessionUpdateView::Pull(session_id) => AccountView {
            sessions: remove_all(account.sessions, session_id),
            ..account
        },
    }
}

/// No document is admitted by the filter.
pub open spec fn no_match(docs: Seq<AccountView>, filter: AccountFilterView) -> bool {
    forall|j: int| 0 <= j < docs.len() ==> !filter_matches(filter, #[trigger] docs[j])
}

/// Document `i` is the first that the filter admits.
pub open spec fn is_first_match(docs: Seq<AccountView>, filter: AccountFilterView, i: int) -> bool {
    &&& 0 <= i < docs.len()
    &&& filter_matches(filter, docs[i])
    &&& no_match(docs.take(i), filter)
}

/// Tells whether an account holds a session handle.
pub fn account_has_session(account: &Account, session_id: &String) -> (res: bool)
    ensures
        res == has_session(account@, session_id@),
{
    let mut i: usize = 0;
    while i < account.sessions.len()
        invariant
            i <= account.sessions.len(),
            forall|j: int| 0 <= j < i ==> account.sessions[j]@ != session_id@,
        decreases account.sessions.len() - i,
    {
        if account.sessions[i].session_id == *session_id {
            assert(handles_view(account.sessions@)[i as int] == session_id@);
            return true;
        }
        i = i + 1;
    }
    assert forall|j: int| 0 <= j < account@.sessions.len() implies account@.sessions[j]
        != session_id@ by {
        assert(account@.sessions[j] == account.sessions[j]@);
    }
    false
}

impl AccountFilter {
    /// Tells whether the filter admits an account.
    pub fn matches(&self, account: &Account) -> (res: bool)
        ensures
            res == filter_matches(self@, account@),
    {
        match self {
            AccountFilter::GithubId(id) => account.github_id == *id,
            AccountFilter::Triple { uuid, github_id, session_id } => {
                account.uuid == *uuid && account.github_id == *github_id && account_has_session(
                    account,
                    session_id,
                )
            },
            AccountFilter::SessionId(session_id) => account_has_session(account, session_id),
        }
    }
}

/// Copies an account's handles, leaving out those equal to `session_id`.
pub fn sessions_without(sessions: &Vec<Session>, session_id: &String) -> (res: Vec<Session>)
    ensures
        handles_view(res@) == remove_all(handles_view(sessions@), session_id@),
{
    let ghost all = handles_view(sessions@);
    let mut res: Vec<Session> = Vec::new();
    let mut i: usize = 0;
    assert(handles_view(res@) =~= remove_all(all.take(0), session_id@));
    while i < sessions.len()
        invariant
            i <= sessions.len(),
            all == handles_view(sessions@),
            handles_view(res@) == remove_all(all.take(i as int), session_id@),
        decreases sessions.len() - i,
    {
        let ghost before = handles_view(res@);
        assert(all.take(i + 1).drop_last() =~= all.take(i as int));
        assert(all.take(i + 1).last() == sessions[i as int]@);
        if sessions[i].session_id != *session_id {
            res.push(sessions[i].clone());
            assert(handles_view(res@) =~= before.push(sessions[i as int]@));
        }
        i = i + 1;
    }
    assert(all.take(sessions.len() as int) =~= all);
    res
}

impl SessionUpdate {
    /// Applies the update to an account.
    pub fn apply(&self, account: &mut Account)
        ensures
            final(account)@ == apply_update(self@, old(account)@),
    {
        match self {
            SessionUpdate::Push(session_id) => {
                let ghost before = handles_view(account.sessions@);
                account.sessions.push(Session { session_id: session_id.clone() });
                assert(handles_view(account.sessions@) =~= before.push(session_id@));
            },
            SessionUpdate::Pull(session_id) => {
                account.sessions = sessions_without(&account.sessions, session_id);
            },
        }
    }
}

/// The views of a list of accounts, in order.
pub open spec fn accounts_view(accounts: Seq<Account>) -> Seq<AccountView> {
    accounts.map_values(|a: Account| a@)
}

/// The collection after the update has been applied to document `i`.
pub open spec fn updated_at(
    docs: Seq<AccountView>,
    i: int,
    update: SessionUpdateView,
) -> Seq<AccountView> {
    docs.update(i, apply_update(update, docs[i]))
}

/// The position of the first document that the filter admits, if there is one.
pub open spec fn first_match(docs: Seq<AccountView>, filter: AccountFilterView) -> Option<int> {
    if exists|i: int| is_first_match(docs, filter, i) {
        Some(choose|i: int| is_first_match(docs, filter, i))
    } else {
        None
    }
}

/// The first document that the filter admits, if there is one.
pub open spec fn found(docs: Seq<AccountView>, filter: AccountFilterView) -> Option<AccountView> {
    match first_match(docs, filter) {
        Some(i) => Some(docs[i]),
        None => None,
    }
}

/// The collection after the update has been applied to the first document
/// that the filter admits; the collection as it is where it admits none.
pub open spec fn updated(
    docs: Seq<AccountView>,
    filter: AccountFilterView,
    update: SessionUpdateView,
) -> Seq<AccountView> {
    match first_match(docs, filter) {
        Some(i) => updated_at(docs, i, update),
        None => docs,
    }
}

/// How many documents such an update changes: one or none.
pub open spec fn modified_count(
    docs: Seq<AccountView>,
    filter: AccountFilterView,
    update: SessionUpdateView,
) -> u64 {
    if updated(docs, filter, update) == docs {
        0
    } else {
        1
    }
}

/// The view of an account that may be absent.
pub open spec fn account_view(account: Option<Account>) -> Option<AccountView> {
    match account {
        Some(a) => Some(a@),
        None => None,
    }
}

/// The first document that a filter admits is the only one that is first.
pub proof fn lemma_first_match_is(docs: Seq<AccountView>, filter: AccountFilterView, i: int)
    requires
        is_first_match(docs, filter, i),
    ensures
        first_match(docs, filter) == Some(i),
{
    let j = choose|j: int| is_first_match(docs, filter, j);
    if j < i {
        assert(docs.take(i)[j] == docs[j]);
    } else if i < j {
        assert(docs.take(j)[i] == docs[i]);
    }
}

/// Where a filter admits a document at all, it admits a first one.
pub proof fn lemma_first_match_exists(docs: Seq<AccountView>, filter: AccountFilterView, k: int)
    requires
        0 <= k < docs.len(),
        filter_matches(filter, docs[k]),
    ensures
        first_match(docs, filter) is Some,
        first_match(docs, filter).unwrap() <= k,
        is_first_match(docs, filter, first_match(docs, filter).unwrap()),
    decreases k,
{
    if no_match(docs.take(k), filter) {
        lemma_first_match_is(docs, filter, k);
    } else {
        let j = choose|j: int| 0 <= j < docs.take(k).len() && filter_matches(filter, docs.take(k)[j]);
        assert(docs.take(k)[j] == docs[j]);
        lemma_first_match_exists(docs, filter, j);
    }
}

/// A filter finds nothing exactly where it admits no document.
pub proof fn lemma_first_match_none(docs: Seq<AccountView>, filter: AccountFilterView)
    ensures
        first_match(docs, filter) is None <==> no_match(docs, filter),
{
    if no_match(docs, filter) {
        assert(forall|i: int| !is_first_match(docs, filter, i));
    } else {
        let k = choose|k: int| 0 <= k < docs.len() && filter_matches(filter, docs[k]);
        lemma_first_match_exists(docs, filter, k);
    }
}

/// The handles left after a removal are no more than there were, and as many
/// only where nothing was removed.
pub proof fn lemma_remove_all_len(sessions: Seq<Seq<char>>, session_id: Seq<char>)
    ensures
        remove_all(sessions, session_id).len() <= sessions.len(),
        remove_all(sessions, session_id).len() == sessions.len() ==> remove_all(
            sessions,
            session_id,
        ) == sessions,
    decreases sessions.len(),
{
    if sessions.len() > 0 {
        lemma_remove_all_len(sessions.drop_last(), session_id);
        if sessions.last() != session_id && remove_all(sessions, session_id).len()
            == sessions.len() {
            assert(sessions =~= sessions.drop_last().push(sessions.last()));
        }
    }
}

/// An update changes an account exactly where it changes the length of its
/// session list.
pub proof fn lemma_apply_update_changes(update: SessionUpdateView, account: AccountView)
    ensures
        apply_update(update, account) == account <==> apply_update(update, account).sessions.len()
            == account.sessions.len(),
{
    match update {
        SessionUpdateView::Push(_) => {},
        SessionUpdateView::Pull(session_id) => {
            lemma_remove_all_len(account.sessions, session_id);
        },
    }
}

/// An in-memory collection of account documents, in insertion order.
///
/// The documents are reached through the operations below and in no other
/// way: a session list in the collection changes only by an update.
#[derive(Debug)]
pub struct AccountStore {
    accounts: Vec<Account>,
}

impl View for AccountStore {
    type V = Seq<AccountView>;

    closed spec fn view(&self) -> Seq<AccountView> {
        accounts_view(self.accounts@)
    }
}

impl AccountStore {
    /// A collection without documents.
    pub fn new() -> (res: Self)
        ensures
            res@ == Seq::<AccountView>::empty(),
    {
        let res = AccountStore { accounts: Vec::new() };
        assert(res@ =~= Seq::<AccountView>::empty());
        res
    }

    /// The number of documents.
    pub fn len(&self) -> (res: usize)
        ensures
            res == self@.len(),
    {
        self.accounts.len()
    }

    /// The documents, for reading.
    pub fn accounts(&self) -> (res: &Vec<Account>)
        ensures
            accounts_view(res@) == self@,
    {
        &self.accounts
    }

    /// The position of the first document that the filter admits.
    pub fn find_index(&self, filter: &AccountFilter) -> (res: Option<usize>)
        ensures
            match res {
                Some(i) => first_match(self@, filter@) == Some(i as int) && i < self@.len(),
                None => first_match(self@, filter@) is None,
            },
    {
        let mut i: usize = 0;
        while i < self.accounts.len()
            invariant
                i <= self.accounts.len(),
                no_match(self@.take(i as int), filter@),
            decreases self.accounts.len() - i,
        {
            assert(self@[i as int] == self.accounts[i as int]@);
            if filter.matches(&self.accounts[i]) {
                proof {
                    lemma_first_match_is(self@, filter@, i as int);
                }
                return Some(i);
            }
            assert forall|j: int| 0 <= j < i + 1 implies !filter_matches(
                filter@,
                #[trigger] self@.take(i + 1)[j],
            ) by {
                if j < i {
                    assert(self@.take(i as int)[j] == self@[j]);
                }
            }
            i = i + 1;
        }
        proof {
            assert(self@.take(i as int) =~= self@);
            lemma_first_match_none(self@, filter@);
        }
        None
    }

    /// The first document that the filter admits, if there is one.
    pub fn find_one(&self, filter: &AccountFilter) -> (res: Option<Account>)
        ensures
            account_view(res) == found(self@, filter@),
    {
        match self.find_index(filter) {
            Some(i) => {
                assert(self@[i as int] == self.accounts[i as int]@);
                Some(self.accounts[i].clone())
            },
            None => None,
        }
    }

    /// Adds a document at the end. Nothing is checked for uniqueness.
    pub fn insert_one(&mut self, account: Account)
        ensures
            final(self)@ == old(self)@.push(account@),
    {
        self.accounts.push(account);
        assert(self@ =~= old(self)@.push(account@));
    }

    /// Applies an update to the first document that the filter admits, and
    /// returns how many documents it changed: one, or none where the filter
    /// admits no document or the update leaves the document as it was.
    pub fn update_one(&mut self, filter: &AccountFilter, update: &SessionUpdate) -> (res: u64)
        ensures
            final(self)@ == updated(old(self)@, filter@, update@),
            res == modified_count(old(self)@, filter@, update@),
    {
        match self.find_index(filter) {
            Some(i) => {
                let ghost docs = self@;
                assert(docs[i as int] == self.accounts[i as int]@);
                let mut account = self.accounts[i].clone();
                let before = account.sessions.len();
                update.apply(&mut account);
                let changed = account.sessions.len() != before;
                proof {
                    lemma_apply_update_changes(update@, docs[i as int]);
                }
                self.accounts.set(i, account);
                assert(self@ =~= updated_at(docs, i as int, update@));
                assert(self@ == docs <==> self@[i as int] == docs[i as int]) by {
                    if self@[i as int] == docs[i as int] {
                        assert(self@ =~= docs);
                    }
                }
                if changed {
                    1
                } else {
                    0
                }
            },
            None => 0,
        }
    }

    /// Applies an update to the first document that the filter admits, and
    /// returns that document as it was before.
    pub fn find_one_and_update(&mut self, filter: &AccountFilter, update: &SessionUpdate) -> (res:
        Option<Account>)
        ensures
            account_view(res) == found(old(self)@, filter@),
            final(self)@ == updated(old(self)@, filter@, update@),
    {
        match self.find_index(filter) {
            Some(i) => {
                let ghost docs = self@;
                assert(docs[i as int] == self.accounts[i as int]@);
                let found = self.accounts[i].clone();
                let mut account = self.accounts[i].clone();
                update.apply(&mut account);
                self.accounts.set(i, account);
                assert(self@ =~= updated_at(docs, i as int, update@));
                Some(found)
            },
            None => None,
        }
    }
}

/// Taking a handle out of a list is filtering the list for the other
/// handles: none equal to it stays, and the rest stay in their order.
pub proof fn lemma_remove_all_is_filter(sessions: Seq<Seq<char>>, session_id: Seq<char>)
    ensures
        remove_all(sessions, session_id) == sessions.filter(|s: Seq<char>| s != session_id),
        !remove_all(sessions, session_id).contains(session_id),
        forall|other: Seq<char>|
            other != session_id ==> (#[trigger] remove_all(sessions, session_id).contains(other)
                <==> sessions.contains(other)),
    decreases sessions.len(),
{
    reveal(Seq::filter);
    let kept = remove_all(sessions, session_id);
    if sessions.len() > 0 {
        let init = sessions.drop_last();
        lemma_remove_all_is_filter(init, session_id);
        let kept_init = remove_all(init, session_id);
        assert(sessions =~= init.push(sessions.last()));
        assert forall|other: Seq<char>| other != session_id implies (#[trigger] kept.contains(
            other,
        ) <==> sessions.contains(other)) by {
            if kept.contains(other) {
                let i = choose|i: int| 0 <= i < kept.len() && kept[i] == other;
                if i < kept_init.len() {
                    assert(kept_init[i] == other);
                    assert(remove_all(init, session_id).contains(other));
                    let j = choose|j: int| 0 <= j < init.len() && init[j] == other;
                    assert(sessions[j] == other);
                } else {
                    assert(sessions[sessions.len() - 1] == other);
                }
            }
            if sessions.contains(other) {
                let j = choose|j: int| 0 <= j < sessions.len() && sessions[j] == other;
                if j < init.len() {
                    assert(init[j] == other);
                    assert(init.contains(other));
                    assert(remove_all(init, session_id).contains(other));
                    let i = choose|i: int| 0 <= i < kept_init.len() && kept_init[i] == other;
                    assert(kept[i] == other);
                } else {
                    assert(kept[kept.len() - 1] == other);
                }
            }
        }
        if kept.contains(session_id) {
            let i = choose|i: int| 0 <= i < kept.len() && kept[i] == session_id;
            if i < kept_init.len() {
                assert(kept_init[i] == session_id);
                assert(kept_init.contains(session_id));
            }
        }
    }
}

/// An update leaves the number of documents as it is and every document but
/// the first that the filter admits. Of that one it changes the session list
/// and nothing else: by one handle appended, or by one handle taken out.
pub proof fn lemma_update_changes_one_session_list(
    docs: Seq<AccountView>,
    filter: AccountFilterView,
    update: SessionUpdateView,
)
    ensures
        updated(docs, filter, update).len() == docs.len(),
        forall|j: int|
            0 <= j < docs.len() && first_match(docs, filter) != Some(j) ==> (#[trigger] updated(
                docs,
                filter,
                update,
            )[j]) == docs[j],
        forall|j: int|
            first_match(docs, filter) == Some(j) ==> {
                &&& 0 <= j < docs.len()
                &&& filter_matches(filter, docs[j])
                &&& (#[trigger] updated(docs, filter, update)[j]) == (AccountView {
                    sessions: match update {
                        SessionUpdateView::Push(session_id) => docs[j].sessions.push(session_id),
                        SessionUpdateView::Pull(session_id) => remove_all(
                            docs[j].sessions,
                            session_id,
                        ),
                    },
                    ..docs[j]
                })
            },
{
    lemma_first_match_none(docs, filter);
    if first_match(docs, filter) is Some {
        let i = first_match(docs, filter).unwrap();
        assert(is_first_match(docs, filter, i));
    }
}

/// Inserting an account changes no account that was there: each keeps its
/// place and its session list.
pub proof fn lemma_insert_changes_no_session_list(docs: Seq<AccountView>, account: AccountView)
    ensures
        docs.push(account).len() == docs.len() + 1,
        docs.push(account).last() == account,
        forall|j: int| 0 <= j < docs.len() ==> (#[trigger] docs.push(account)[j]) == docs[j],
{
}

} // verus!
