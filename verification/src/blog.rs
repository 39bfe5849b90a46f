//! The rules of the blog's handlers: who may see or change a post, what an
//! edit does to it, and which slice of the posts a page is.

use crate::fresh::{is_alphanumeric_token, sample_alphanumeric};
use crate::outcome::{Answer, StoreFailure};
use crate::user::{refusal, resolution_view, text_view, Account, AccountView, SessionError};
use vstd::prelude::*;

verus! {

/// Length of a post's identifier.
pub const POST_ID_LEN: usize = 16;

/// Smallest and largest number of posts on a listed page.
pub const MIN_PAGE_LIMIT: i64 = 10;

pub const MAX_PAGE_LIMIT: i64 = 50;

/// A post. Times are milliseconds since the Unix epoch.
#[derive(Debug)]
pub struct Post {
    pub creator: String,
    pub id: String,
    pub title: String,
    pub body: String,
    pub draft: bool,
    pub hidden: bool,
    pub created: Option<i64>,
    pub published: Option<i64>,
    pub last_edit: Option<i64>,
}

/// What a [`Post`] is, as mathematics.
pub ghost struct PostView {
    pub creator: Seq<char>,
    pub id: Seq<char>,
    pub title: Seq<char>,
    pub body: Seq<char>,
    pub draft: bool,
    pub hidden: bool,
    pub created: Option<i64>,
    pub published: Option<i64>,
    pub last_edit: Option<i64>,
}

impl View for Post {
    type V = PostView;

    open spec fn view(&self) -> PostView {
        PostView {
            creator: self.creator@,
            id: self.id@,
            title: self.title@,
            body: self.body@,
            draft: self.draft,
            hidden: self.hidden,
            created: self.created,
            published: self.published,
            last_edit: self.last_edit,
        }
    }
}

/// What an author sends to create or edit a post.
#[derive(Debug)]
pub struct PostUpload {
    pub title: Option<String>,
    pub body: Option<String>,
}

/// Selects the post of an identifier.
#[derive(Debug)]
pub struct Criteria {
    pub id: String,
}

/// A page of posts: its number, from one, and how many posts it holds.
#[derive(Debug, Clone, Copy, PartialEq, Eq, Structural)]
pub struct Pagination {
    pub page: i64,
    pub limit: i64,
}

/// The pagination that a listing uses for the page and limit asked for: the
/// limit brought into ten to fifty, the page to one at least.
pub open spec fn listed_page(page: i64, limit: i64) -> Pagination {
    Pagination {
        page: if page < 1 {
            1
        } else {
            page
        },
        limit: if limit > MAX_PAGE_LIMIT {
            MAX_PAGE_LIMIT
        } else if limit < MIN_PAGE_LIMIT {
            MIN_PAGE_LIMIT
        } else {
            limit
        },
    }
}

/// Brings the page and limit of a listing into range.
pub fn list(page: i64, limit: i64) -> (res: Pagination)
    ensures
        res == listed_page(page, limit),
{
    let limit = if limit > MAX_PAGE_LIMIT {
        MAX_PAGE_LIMIT
    } else if limit < MIN_PAGE_LIMIT {
        MIN_PAGE_LIMIT
    } else {
        limit
    };
    let page = if page < 1 {
        1
    } else {
        page
    };
    Pagination { page, limit }
}

/// Which posts a query is about.
#[derive(Debug)]
pub struct PostFilter {
    pub hidden: bool,
    pub draft: bool,
    pub creator: Option<String>,
}

/// The filter of a query: drafts are shown only of a creator that is named,
/// and then only that creator's; otherwise published posts of anyone.
pub open spec fn post_filter_of(creator: Option<Seq<char>>, drafts: bool, hidden: bool) -> (
    bool,
    bool,
    Option<Seq<char>>,
) {
    if drafts && creator is Some {
        (hidden, true, creator)
    } else {
        (hidden, false, None)
    }
}

/// Builds the filter of a query.
pub fn post_filter(creator: Option<String>, drafts: bool, hidden: bool) -> (res: PostFilter)
    ensures
        (res.hidden, res.draft, text_view(res.creator)) == post_filter_of(
            text_view(creator),
            drafts,
            hidden,
        ),
{
    if drafts && creator.is_some() {
        PostFilter { hidden, draft: true, creator }
    } else {
        PostFilter { hidden, draft: false, creator: None }
    }
}

/// The filter admits the post.
pub open spec fn post_matches(filter: (bool, bool, Option<Seq<char>>), post: PostView) -> bool {
    &&& post.hidden == filter.0
    &&& post.draft == filter.1
    &&& filter.2 matches Some(creator) ==> post.creator == creator
}

impl PostFilter {
    /// Tells whether the filter admits a post.
    pub fn matches(&self, post: &Post) -> (res: bool)
        ensures
            res == post_matches((self.hidden, self.draft, text_view(self.creator)), post@),
    {
        if post.hidden != self.hidden || post.draft != self.draft {
            return false;
        }
        match &self.creator {
            Some(creator) => post.creator == *creator,
            None => true,
        }
    }
}

/// How many posts a page skips and how many it holds at most: all posts
/// from the first where no page is asked for. `None` where the number to
/// skip is beyond what a signed 64-bit integer holds.
pub open spec fn window_of(pagination: Option<Pagination>) -> Option<(int, i64)> {
    match pagination {
        None => Some((0, i64::MAX)),
        Some(p) => {
            let skip = (p.page - 1) * p.limit;
            if p.page - 1 < i64::MIN || skip < i64::MIN || skip > i64::MAX {
                None
            } else {
                Some((skip, p.limit))
            }
        },
    }
}

/// Computes the window of a page.
pub fn window(pagination: Option<Pagination>) -> (res: Option<(i64, i64)>)
    ensures
        match res {
            Some((skip, limit)) => window_of(pagination) == Some((skip as int, limit)),
            None => window_of(pagination) is None,
        },
{
    match pagination {
        None => Some((0, i64::MAX)),
        Some(p) => {
            let before = match p.page.checked_sub(1) {
                Some(before) => before,
                None => {
                    return None;
                },
            };
            match before.checked_mul(p.limit) {
                Some(skip) => Some((skip, p.limit)),
                None => None,
            }
        },
    }
}

/// Why a post was not changed or made.
#[derive(Debug, Clone, Copy, PartialEq, Eq, Structural)]
pub enum PostError {
    /// The session record did not resolve to an account.
    Unresolved(SessionError),
    /// There is no such post.
    NotFound,
    /// The account is not the post's creator.
    NotAuthorised,
    /// The account is not elevated.
    NotElevated,
    /// The upload lacks its title or its body.
    Incomplete,
}

/// What a refusal is answered with. A request whose session did not resolve
/// gets the resolver's refusal, before anything is said of any post.
pub open spec fn post_error_answer(error: PostError) -> (u16, Seq<char>) {
    match error {
        PostError::Unresolved(unresolved) => refusal(unresolved),
        PostError::NotFound => (404, "Could not find post matching"@),
        PostError::NotAuthorised => (401, "Not authorised"@),
        PostError::NotElevated => (401, Seq::empty()),
        PostError::Incomplete => (500, Seq::empty()),
    }
}

/// The HTTP status of a refusal.
pub open spec fn post_error_status(error: PostError) -> u16 {
    post_error_answer(error).0
}

impl PostError {
    /// What the client is answered with.
    pub fn answer(&self) -> (res: Answer)
        ensures
            res@ == post_error_answer(*self),
    {
        proof {
            reveal_strlit("");
        }
        let nothing = "";
        assert(nothing@ =~= Seq::<char>::empty());
        match self {
            PostError::Unresolved(unresolved) => unresolved.answer(),
            PostError::NotFound => Answer { status: 404, body: "Could not find post matching" },
            PostError::NotAuthorised => Answer { status: 401, body: "Not authorised" },
            PostError::NotElevated => Answer { status: 401, body: nothing },
            PostError::Incomplete => Answer { status: 500, body: nothing },
        }
    }

    /// The HTTP status of the answer.
    pub fn status(&self) -> (res: u16)
        ensures
            res == post_error_status(*self),
    {
        self.answer().status
    }
}

/// The view of an account or a refusal.
pub open spec fn author_view(res: Result<Account, PostError>) -> Result<AccountView, PostError> {
    match res {
        Ok(account) => Ok(account@),
        Err(error) => Err(error),
    }
}

/// Who a request on posts is made by, given how its session record
/// resolved: the account, or the refusal that ends the request at once.
pub open spec fn author_of(resolution: Result<AccountView, SessionError>) -> Result<
    AccountView,
    PostError,
> {
    match resolution {
        Ok(account) => Ok(account),
        Err(unresolved) => Err(PostError::Unresolved(unresolved)),
    }
}

/// Admits the author of a request on posts. This is the first step of every
/// handler that needs an account: no post is read or changed for a request
/// that it refuses.
pub fn author(resolution: Result<Account, SessionError>) -> (res: Result<Account, PostError>)
    ensures
        author_view(res) == author_of(resolution_view(resolution)),
{
    match resolution {
        Ok(account) => Ok(account),
        Err(unresolved) => Err(PostError::Unresolved(unresolved)),
    }
}

/// The post after an edit: title and body replaced where the upload has
/// them, the time of the edit noted, the rest as it was.
pub open spec fn edited(
    post: PostView,
    title: Option<Seq<char>>,
    body: Option<Seq<char>>,
    now: i64,
) -> PostView {
    PostView {
        title: match title {
            Some(t) => t,
            None => post.title,
        },
        body: match body {
            Some(b) => b,
            None => post.body,
        },
        last_edit: Some(now),
        ..post
    }
}

/// What an edit comes to: the post to store, for the creator of a post that
/// exists.
pub open spec fn edit_of(
    account_uuid: Seq<char>,
    post: Option<PostView>,
    title: Option<Seq<char>>,
    body: Option<Seq<char>>,
    now: i64,
) -> Result<PostView, PostError> {
    match post {
        None => Err(PostError::NotFound),
        Some(p) => if p.creator == account_uuid {
            Ok(edited(p, title, body, now))
        } else {
            Err(PostError::NotAuthorised)
        },
    }
}

/// The view of a post that may be absent.
pub open spec fn post_view(post: Option<Post>) -> Option<PostView> {
    match post {
        Some(p) => Some(p@),
        None => None,
    }
}

/// The view of a post or a refusal.
pub open spec fn post_result_view(res: Result<Post, PostError>) -> Result<PostView, PostError> {
    match res {
        Ok(p) => Ok(p@),
        Err(e) => Err(e),
    }
}

/// Decides on an edit of the post that was looked up.
pub fn edit(account: &Account, post: Option<Post>, update: PostUpload, now: i64) -> (res: Result<
    Post,
    PostError,
>)
    ensures
        post_result_view(res) == edit_of(
            account.uuid@,
            post_view(post),
            text_view(update.title),
            text_view(update.body),
            now,
        ),
{
    let mut post = match post {
        Some(post) => post,
        None => {
            return Err(PostError::NotFound);
        },
    };
    if account.uuid != post.creator {
        return Err(PostError::NotAuthorised);
    }
    match update.title {
        Some(title) => {
            post.title = title;
        },
        None => {},
    }
    match update.body {
        Some(body) => {
            post.body = body;
        },
        None => {},
    }
    post.last_edit = Some(now);
    Ok(post)
}

/// What marking a post as a draft or as published comes to.
pub open spec fn draft_of(account_uuid: Seq<char>, post: Option<PostView>, draft: bool) -> Result<
    PostView,
    PostError,
> {
    match post {
        None => Err(PostError::NotFound),
        Some(p) => if p.creator == account_uuid {
            Ok(PostView { draft, ..p })
        } else {
            Err(PostError::NotAuthorised)
        },
    }
}

/// Decides on marking the post that was looked up as a draft or as
/// published.
pub fn draft(account: &Account, post: Option<Post>, as_draft: bool) -> (res: Result<Post, PostError>)
    ensures
        post_result_view(res) == draft_of(account.uuid@, post_view(post), as_draft),
{
    let mut post = match post {
        Some(post) => post,
        None => {
            return Err(PostError::NotFound);
        },
    };
    if account.uuid != post.creator {
        return Err(PostError::NotAuthorised);
    }
    post.draft = as_draft;
    Ok(post)
}

/// Why an upload is refused, if it is: the account is not elevated, or the
/// upload lacks its title or its body.
pub open spec fn upload_refusal(
    elevated: bool,
    title: Option<Seq<char>>,
    body: Option<Seq<char>>,
) -> Option<PostError> {
    if !elevated {
        Some(PostError::NotElevated)
    } else if title is None || body is None {
        Some(PostError::Incomplete)
    } else {
        None
    }
}

/// What an upload comes to: its refusal, or a new draft of the account's.
pub open spec fn upload_of(
    account_uuid: Seq<char>,
    elevated: bool,
    title: Option<Seq<char>>,
    body: Option<Seq<char>>,
    id: Seq<char>,
    now: i64,
) -> Result<PostView, PostError> {
    match upload_refusal(elevated, title, body) {
        Some(error) => Err(error),
        None => Ok(
            PostView {
                creator: account_uuid,
                id,
                title: title.unwrap(),
                body: body.unwrap(),
                draft: true,
                hidden: false,
                created: Some(now),
                published: None,
                last_edit: None,
            },
        ),
    }
}

/// Tells whether an upload will be refused, before an identifier is drawn
/// for it.
pub fn check_upload(account: &Account, info: &PostUpload) -> (res: Result<(), PostError>)
    ensures
        res == match upload_refusal(
            account.elevated,
            text_view(info.title),
            text_view(info.body),
        ) {
            Some(error) => Err::<(), PostError>(error),
            None => Ok(()),
        },
{
    if !account.elevated {
        return Err(PostError::NotElevated);
    }
    if info.title.is_none() || info.body.is_none() {
        return Err(PostError::Incomplete);
    }
    Ok(())
}

/// Decides on an upload.
pub fn upload(account: &Account, info: PostUpload, id: String, now: i64) -> (res: Result<
    Post,
    PostError,
>)
    ensures
        post_result_view(res) == upload_of(
            account.uuid@,
            account.elevated,
            text_view(info.title),
            text_view(info.body),
            id@,
            now,
        ),
{
    if !account.elevated {
        return Err(PostError::NotElevated);
    }
    let title = match info.title {
        Some(title) => title,
        None => {
            return Err(PostError::Incomplete);
        },
    };
    let body = match info.body {
        Some(body) => body,
        None => {
            return Err(PostError::Incomplete);
        },
    };
    Ok(
        Post {
            creator: account.uuid.clone(),
            id,
            title,
            body,
            draft: true,
            hidden: false,
            created: Some(now),
            published: None,
            last_edit: None,
        },
    )
}

/// How a request to read a post is answered.
#[derive(Debug, Clone, Copy, PartialEq, Eq, Structural)]
pub enum Viewing {
    /// The post is shown.
    Shown,
    /// The post is not public and no session was resolved for the reader.
    NoAccount,
    /// The post is not public and the reader's session did not resolve.
    Unresolved(SessionError),
    /// The post is not public and the reader may not see it.
    Forbidden,
}

/// A post that anyone may read: neither a draft nor hidden.
pub open spec fn public(post: PostView) -> bool {
    !post.draft && !post.hidden
}

/// Who gets to read a post: anyone where it is public; else its creator, if
/// elevated. A reader whose session does not resolve gets the resolver's
/// refusal.
pub open spec fn viewing_of(
    post: PostView,
    reader: Option<Result<AccountView, SessionError>>,
) -> Viewing {
    if public(post) {
        Viewing::Shown
    } else {
        match reader {
            None => Viewing::NoAccount,
            Some(Err(unresolved)) => Viewing::Unresolved(unresolved),
            Some(Ok(account)) => if account.elevated && account.uuid == post.creator {
                Viewing::Shown
            } else {
                Viewing::Forbidden
            },
        }
    }
}

/// What is known of a reader.
pub open spec fn reader_view(reader: Option<&Result<Account, SessionError>>) -> Option<
    Result<AccountView, SessionError>,
> {
    match reader {
        Some(resolution) => Some(resolution_view(*resolution)),
        None => None,
    }
}

/// The HTTP status of a viewing.
pub open spec fn viewing_status(viewing: Viewing) -> u16 {
    match viewing {
        Viewing::Shown => 200,
        Viewing::NoAccount => 401,
        Viewing::Unresolved(unresolved) => refusal(unresolved).0,
        Viewing::Forbidden => 403,
    }
}

/// Tells whether anyone may read a post, so that no session need be
/// resolved for it.
pub fn is_public(post: &Post) -> (res: bool)
    ensures
        res == public(post@),
{
    !post.draft && !post.hidden
}

/// Decides whether a reader gets to read a post. `reader` is how the
/// reader's session resolved, if it was resolved at all.
pub fn get(post: &Post, reader: Option<&Result<Account, SessionError>>) -> (res: Viewing)
    ensures
        res == viewing_of(post@, reader_view(reader)),
{
    if is_public(post) {
        return Viewing::Shown;
    }
    match reader {
        None => Viewing::NoAccount,
        Some(Err(unresolved)) => Viewing::Unresolved(*unresolved),
        Some(Ok(account)) => {
            if !account.elevated || account.uuid != post.creator {
                Viewing::Forbidden
            } else {
                Viewing::Shown
            }
        },
    }
}

impl Viewing {
    /// The HTTP status of the answer.
    pub fn status(&self) -> (res: u16)
        ensures
            res == viewing_status(*self),
    {
        match self {
            Viewing::Shown => 200,
            Viewing::NoAccount => 401,
            Viewing::Unresolved(unresolved) => unresolved.answer().status,
            Viewing::Forbidden => 403,
        }
    }
}

/// One step in the search for a post identifier that is not taken.
#[derive(Debug)]
pub enum IdSearch {
    /// Ask the post store whether this candidate is taken.
    Check(String),
    /// Use this identifier.
    Use(String),
}

/// Whether a candidate counts as taken: only where the store says so. A
/// store that does not answer has not said so.
pub open spec fn taken(exists: Result<bool, StoreFailure>) -> bool {
    exists == Ok::<bool, StoreFailure>(true)
}

/// Starts the search with a fresh candidate.
pub fn generate_id() -> (res: IdSearch)
    ensures
        res matches IdSearch::Check(candidate) && is_alphanumeric_token(
            candidate@,
            POST_ID_LEN as nat,
        ),
{
    IdSearch::Check(sample_alphanumeric(POST_ID_LEN))
}

/// Goes on with the search once the store has answered for a candidate:
/// the candidate is used unless it is taken, and else another is drawn.
pub fn generate_id_next(candidate: String, exists: Result<bool, StoreFailure>) -> (res: IdSearch)
    ensures
        match res {
            IdSearch::Use(id) => !taken(exists) && id@ == candidate@,
            IdSearch::Check(other) => taken(exists) && is_alphanumeric_token(
                other@,
                POST_ID_LEN as nat,
            ),
        },
{
    match exists {
        Ok(true) => IdSearch::Check(sample_alphanumeric(POST_ID_LEN)),
        _ => IdSearch::Use(candidate),
    }
}

/// A query for posts: which posts, how many to skip and how many to return
/// at most.
#[derive(Debug)]
pub struct PostQuery {
    pub filter: PostFilter,
    pub skip: u64,
    pub limit: i64,
}

/// What a [`PostQuery`] is, as mathematics.
pub ghost struct PostQueryView {
    pub filter: (bool, bool, Option<Seq<char>>),
    pub skip: int,
    pub limit: i64,
}

impl View for PostQuery {
    type V = PostQueryView;

    open spec fn view(&self) -> PostQueryView {
        PostQueryView {
            filter: (self.filter.hidden, self.filter.draft, text_view(self.filter.creator)),
            skip: self.skip as int,
            limit: self.limit,
        }
    }
}

/// A signed number of posts to skip, read as an unsigned 64-bit integer: a
/// negative number wraps round to a number so large that nothing is left.
pub open spec fn skip_as_unsigned(skip: int) -> int {
    if skip < 0 {
        skip + 0x1_0000_0000_0000_0000
    } else {
        skip
    }
}

/// The query for the posts of a listing, or `None` where the page lies
/// beyond what can be counted.
pub open spec fn posts_query(
    creator: Option<Seq<char>>,
    drafts: bool,
    hidden: bool,
    pagination: Option<Pagination>,
) -> Option<PostQueryView> {
    match window_of(pagination) {
        None => None,
        Some((skip, limit)) => Some(
            PostQueryView {
                filter: post_filter_of(creator, drafts, hidden),
                skip: skip_as_unsigned(skip),
                limit,
            },
        ),
    }
}

/// The view of a query that may be absent.
pub open spec fn query_view(query: Option<PostQuery>) -> Option<PostQueryView> {
    match query {
        Some(q) => Some(q@),
        None => None,
    }
}

/// Builds the query for the posts of a listing.
pub fn get_posts(
    creator: Option<String>,
    drafts: bool,
    hidden: bool,
    pagination: Option<Pagination>,
) -> (res: Option<PostQuery>)
    ensures
        query_view(res) == posts_query(text_view(creator), drafts, hidden, pagination),
{
    let (skip, limit) = match window(pagination) {
        Some(w) => w,
        None => {
            return None;
        },
    };
    let skip: u64 = if skip >= 0 {
        skip as u64
    } else {
        u64::MAX - ((-(skip + 1)) as u64)
    };
    Some(PostQuery { filter: post_filter(creator, drafts, hidden), skip, limit })
}

/// The query for an account's own drafts: all of them, hidden ones left out.
pub fn drafts(account: &Account) -> (res: PostQuery)
    ensures
        res@ == (PostQueryView {
            filter: (false, true, Some(account.uuid@)),
            skip: 0,
            limit: i64::MAX,
        }),
{
    PostQuery {
        filter: post_filter(Some(account.uuid.clone()), true, false),
        skip: 0,
        limit: i64::MAX,
    }
}

} // verus!
