use blog_backend::blog::{
    author, check_upload, draft, edit, generate_id, generate_id_next, get, is_public, list,
    post_filter, upload, window, IdSearch, Pagination, Post, PostError, PostUpload, Viewing,
};
use blog_backend::cdn::{check_hash, Delivery};
use blog_backend::outcome::StoreFailure;
use blog_backend::user::{guard, protected, Account, Session, SessionError};
use blog_backend::session::{EphemeralSession, SessionField};
use blog_backend::store::AccountStore;

fn account(uuid: &str, elevated: bool) -> Account {
    Account {
        name: None,
        uuid: uuid.to_string(),
        github_id: 1,
        email: None,
        elevated,
        sessions: vec![Session { session_id: "s".to_string() }],
    }
}

fn post(creator: &str, is_draft: bool, hidden: bool) -> Post {
    Post {
        creator: creator.to_string(),
        id: "p0stp0stp0stp0st".to_string(),
        title: "Title".to_string(),
        body: "Body".to_string(),
        draft: is_draft,
        hidden,
        created: Some(1_700_000_000_000),
        published: None,
        last_edit: None,
    }
}

#[test]
fn list_brings_limit_and_page_into_range() {
    assert_eq!(list(1, 10), Pagination { page: 1, limit: 10 });
    assert_eq!(list(3, 25), Pagination { page: 3, limit: 25 });
    assert_eq!(list(0, 9), Pagination { page: 1, limit: 10 });
    assert_eq!(list(-5, 51), Pagination { page: 1, limit: 50 });
    assert_eq!(list(2, 50), Pagination { page: 2, limit: 50 });
    assert_eq!(list(i64::MAX, i64::MAX), Pagination { page: i64::MAX, limit: 50 });
    assert_eq!(list(i64::MIN, i64::MIN), Pagination { page: 1, limit: 10 });
}

#[test]
fn window_skips_the_pages_before() {
    assert_eq!(window(None), Some((0, i64::MAX)));
    assert_eq!(window(Some(Pagination { page: 1, limit: 10 })), Some((0, 10)));
    assert_eq!(window(Some(Pagination { page: 3, limit: 25 })), Some((50, 25)));
    assert_eq!(window(Some(Pagination { page: 0, limit: 10 })), Some((-10, 10)));
}

#[test]
fn window_beyond_the_integers_is_none() {
    assert_eq!(window(Some(Pagination { page: i64::MAX, limit: 50 })), None);
    assert_eq!(window(Some(Pagination { page: i64::MIN, limit: 1 })), None);
    assert_eq!(
        window(Some(Pagination { page: i64::MAX, limit: 1 })),
        Some((i64::MAX - 1, 1))
    );
}

#[test]
fn post_filter_shows_drafts_only_of_a_named_creator() {
    let f = post_filter(Some("alice".to_string()), true, false);
    assert!(f.draft && !f.hidden);
    assert_eq!(f.creator.as_deref(), Some("alice"));
    let f = post_filter(None, true, false);
    assert!(!f.draft);
    assert_eq!(f.creator, None);
    let f = post_filter(Some("alice".to_string()), false, true);
    assert!(!f.draft && f.hidden);
    assert_eq!(f.creator, None);
}

#[test]
fn post_filter_admits_matching_posts() {
    let drafts_of_alice = post_filter(Some("alice".to_string()), true, false);
    assert!(drafts_of_alice.matches(&post("alice", true, false)));
    assert!(!drafts_of_alice.matches(&post("bob", true, false)));
    assert!(!drafts_of_alice.matches(&post("alice", false, false)));
    assert!(!drafts_of_alice.matches(&post("alice", true, true)));
    let published = post_filter(None, false, false);
    assert!(published.matches(&post("alice", false, false)));
    assert!(published.matches(&post("bob", false, false)));
    assert!(!published.matches(&post("bob", true, false)));
}

#[test]
fn edit_replaces_what_the_upload_has() {
    let update = PostUpload { title: Some("New".to_string()), body: None };
    let edited = edit(&account("alice", false), Some(post("alice", true, false)), update, 99).unwrap();
    assert_eq!(edited.title, "New");
    assert_eq!(edited.body, "Body");
    assert_eq!(edited.last_edit, Some(99));
    assert_eq!(edited.created, Some(1_700_000_000_000));
    assert_eq!(edited.id, "p0stp0stp0stp0st");
    assert!(edited.draft);

    let update = PostUpload { title: None, body: Some("Text".to_string()) };
    let edited = edit(&account("alice", false), Some(post("alice", false, true)), update, 7).unwrap();
    assert_eq!(edited.title, "Title");
    assert_eq!(edited.body, "Text");
    assert!(edited.hidden && !edited.draft);
}

#[test]
fn edit_is_for_the_creator_of_an_existing_post() {
    let update = || PostUpload { title: Some("New".to_string()), body: None };
    assert_eq!(edit(&account("alice", true), None, update(), 1).unwrap_err(), PostError::NotFound);
    assert_eq!(
        edit(&account("bob", true), Some(post("alice", false, false)), update(), 1).unwrap_err(),
        PostError::NotAuthorised
    );
    assert_eq!(PostError::NotFound.status(), 404);
    assert_eq!(PostError::NotFound.answer().body, "Could not find post matching");
    assert_eq!(PostError::NotAuthorised.status(), 401);
    assert_eq!(PostError::NotAuthorised.answer().body, "Not authorised");
    assert_eq!(PostError::NotElevated.status(), 401);
    assert_eq!(PostError::NotElevated.answer().body, "");
    assert_eq!(PostError::Incomplete.status(), 500);
    assert_eq!(PostError::Incomplete.answer().body, "");
}

#[test]
fn draft_marks_the_creators_post() {
    let marked = draft(&account("alice", false), Some(post("alice", true, false)), false).unwrap();
    assert!(!marked.draft);
    assert_eq!(marked.title, "Title");
    assert_eq!(marked.last_edit, None);
    let marked = draft(&account("alice", false), Some(post("alice", false, false)), true).unwrap();
    assert!(marked.draft);
    assert_eq!(draft(&account("alice", false), None, true).unwrap_err(), PostError::NotFound);
    assert_eq!(
        draft(&account("bob", true), Some(post("alice", true, false)), false).unwrap_err(),
        PostError::NotAuthorised
    );
}

#[test]
fn upload_makes_a_draft_of_an_elevated_account() {
    let info = PostUpload { title: Some("T".to_string()), body: Some("B".to_string()) };
    let made = upload(&account("alice", true), info, "abcdefgh12345678".to_string(), 5).unwrap();
    assert_eq!(made.creator, "alice");
    assert_eq!(made.id, "abcdefgh12345678");
    assert_eq!(made.title, "T");
    assert_eq!(made.body, "B");
    assert!(made.draft);
    assert!(!made.hidden);
    assert_eq!(made.created, Some(5));
    assert_eq!(made.published, None);
    assert_eq!(made.last_edit, None);
}

#[test]
fn upload_is_refused_without_privilege_or_content() {
    let full = || PostUpload { title: Some("T".to_string()), body: Some("B".to_string()) };
    assert_eq!(
        upload(&account("alice", false), full(), "id".to_string(), 5).unwrap_err(),
        PostError::NotElevated
    );
    let no_title = PostUpload { title: None, body: Some("B".to_string()) };
    assert_eq!(
        upload(&account("alice", true), no_title, "id".to_string(), 5).unwrap_err(),
        PostError::Incomplete
    );
    let no_body = PostUpload { title: Some("T".to_string()), body: None };
    assert_eq!(
        upload(&account("alice", true), no_body, "id".to_string(), 5).unwrap_err(),
        PostError::Incomplete
    );
    let nothing = PostUpload { title: None, body: None };
    assert_eq!(
        upload(&account("alice", false), nothing, "id".to_string(), 5).unwrap_err(),
        PostError::NotElevated
    );
}

#[test]
fn check_upload_agrees_with_upload() {
    let full = PostUpload { title: Some("T".to_string()), body: Some("B".to_string()) };
    assert_eq!(check_upload(&account("alice", true), &full), Ok(()));
    assert_eq!(check_upload(&account("alice", false), &full), Err(PostError::NotElevated));
    let no_title = PostUpload { title: None, body: Some("B".to_string()) };
    assert_eq!(check_upload(&account("alice", true), &no_title), Err(PostError::Incomplete));
    assert_eq!(check_upload(&account("alice", false), &no_title), Err(PostError::NotElevated));
    let no_body = PostUpload { title: Some("T".to_string()), body: None };
    assert_eq!(check_upload(&account("alice", true), &no_body), Err(PostError::Incomplete));
}

#[test]
fn author_is_the_resolved_account_or_the_resolvers_refusal() {
    assert_eq!(author(Ok(account("alice", false))).unwrap().uuid, "alice");
    for (unresolved, status) in [
        (SessionError::NoneFound(SessionField::Session), 401),
        (SessionError::NoneFound(SessionField::ProviderId), 401),
        (SessionError::AccountNotFound, 401),
        (SessionError::StoreUnavailable, 500),
    ] {
        let refused = author(Err(unresolved)).unwrap_err();
        assert_eq!(refused, PostError::Unresolved(unresolved));
        assert_eq!(refused.status(), status);
        assert_eq!(refused.answer().body, "");
    }
}

#[test]
fn published_posts_are_shown_to_anyone() {
    let p = post("alice", false, false);
    assert!(is_public(&p));
    assert_eq!(get(&p, None), Viewing::Shown);
    assert_eq!(get(&p, Some(&Ok(account("bob", false)))), Viewing::Shown);
    assert_eq!(get(&p, Some(&Err(SessionError::AccountNotFound))), Viewing::Shown);
    assert_eq!(Viewing::Shown.status(), 200);
}

#[test]
fn drafts_and_hidden_posts_are_for_their_elevated_creator() {
    for p in [post("alice", true, false), post("alice", false, true), post("alice", true, true)] {
        assert!(!is_public(&p));
        assert_eq!(get(&p, None), Viewing::NoAccount);
        assert_eq!(get(&p, Some(&Ok(account("alice", true)))), Viewing::Shown);
        assert_eq!(get(&p, Some(&Ok(account("alice", false)))), Viewing::Forbidden);
        assert_eq!(get(&p, Some(&Ok(account("bob", true)))), Viewing::Forbidden);
    }
    assert_eq!(Viewing::NoAccount.status(), 401);
    assert_eq!(Viewing::Forbidden.status(), 403);
}

#[test]
fn unresolved_reader_of_a_draft_gets_the_resolvers_refusal() {
    let p = post("alice", true, false);
    let missing = Err(SessionError::NoneFound(SessionField::Session));
    assert_eq!(
        get(&p, Some(&missing)),
        Viewing::Unresolved(SessionError::NoneFound(SessionField::Session))
    );
    assert_eq!(get(&p, Some(&missing)).status(), 401);
    let unknown = Err(SessionError::AccountNotFound);
    assert_eq!(get(&p, Some(&unknown)).status(), 401);
    let failed = Err(SessionError::StoreUnavailable);
    assert_eq!(get(&p, Some(&failed)).status(), 500);
}

#[test]
fn post_id_is_sixteen_letters_and_digits() {
    match generate_id() {
        IdSearch::Check(candidate) => {
            assert_eq!(candidate.len(), 16);
            assert!(candidate.chars().all(|c| c.is_ascii_alphanumeric()));
        }
        other => panic!("{other:?}"),
    }
}

#[test]
fn post_id_search_retries_only_when_taken() {
    match generate_id_next("cand1date0000000".to_string(), Ok(false)) {
        IdSearch::Use(id) => assert_eq!(id, "cand1date0000000"),
        other => panic!("{other:?}"),
    }
    match generate_id_next("cand1date0000000".to_string(), Err(StoreFailure::Unavailable)) {
        IdSearch::Use(id) => assert_eq!(id, "cand1date0000000"),
        other => panic!("{other:?}"),
    }
    match generate_id_next("cand1date0000000".to_string(), Ok(true)) {
        IdSearch::Check(other) => {
            assert_eq!(other.len(), 16);
            assert_ne!(other, "cand1date0000000");
        }
        other => panic!("{other:?}"),
    }
}

#[test]
fn delivery_needs_the_objects_own_hash() {
    let empty = "786a02f742015903c6c6fd852552d272912f4740e15847618a86e217f71f5419\
                 d25e1031afee585313896444934eb04b903a685b1448b755d56f701afe9be2ce";
    let abc = "ba80a53f981c4d0d6a2797b69f12f6e94c212f14685ac4b74b12bb6fdbffa2d1\
               7d87c5392aab792dc252d5de4533cc9518d38aa8dbf1925ab92386edd4009923";
    assert_eq!(blog_backend::cdn::get(b"", &empty.to_string()), Delivery::Content);
    assert_eq!(blog_backend::cdn::get(b"abc", &abc.to_string()), Delivery::Content);
    assert_eq!(blog_backend::cdn::get(b"abc", &empty.to_string()), Delivery::InvalidHash);
    assert_eq!(blog_backend::cdn::get(b"abd", &abc.to_string()), Delivery::InvalidHash);
    assert_eq!(blog_backend::cdn::get(b"abc", &abc.to_uppercase()), Delivery::InvalidHash);
    assert_eq!(blog_backend::cdn::get(b"abc", &String::new()), Delivery::InvalidHash);
    assert_eq!(Delivery::Content.status(), 200);
    assert_eq!(Delivery::InvalidHash.status(), 400);
}

#[test]
fn check_hash_compares_the_texts() {
    assert_eq!(check_hash(&"ab".to_string(), &"ab".to_string()), Delivery::Content);
    assert_eq!(check_hash(&"ab".to_string(), &"AB".to_string()), Delivery::InvalidHash);
    assert_eq!(check_hash(&"ab".to_string(), &"abc".to_string()), Delivery::InvalidHash);
    assert_eq!(check_hash(&String::new(), &String::new()), Delivery::Content);
}

#[test]
fn protected_resource_needs_a_resolved_account() {
    let mut store = AccountStore::new();
    store.insert_one(account("alice", false));
    let mut record = EphemeralSession::new();
    assert_eq!(protected(&store, &record).status, 401);
    assert_eq!(protected(&store, &record).body, "");
    record.bind("s".to_string(), "alice".to_string(), 1);
    assert_eq!(protected(&store, &record).status, 200);
    assert_eq!(protected(&store, &record).body, "");
    record.bind("t".to_string(), "alice".to_string(), 1);
    assert_eq!(protected(&store, &record).status, 401);
    assert_eq!(guard(&Ok(account("alice", false))).status, 200);
    let missing = guard(&Err(SessionError::NoneFound(SessionField::Uuid)));
    assert_eq!((missing.status, missing.body), (401, ""));
    let unknown = guard(&Err(SessionError::AccountNotFound));
    assert_eq!((unknown.status, unknown.body), (401, ""));
    let failed = guard(&Err(SessionError::StoreUnavailable));
    assert_eq!((failed.status, failed.body), (500, ""));
}

#[test]
fn get_posts_builds_the_query_of_a_listing() {
    let query = blog_backend::blog::get_posts(None, false, false, Some(list(3, 25))).unwrap();
    assert_eq!(query.skip, 50);
    assert_eq!(query.limit, 25);
    assert!(!query.filter.draft && !query.filter.hidden);
    assert_eq!(query.filter.creator, None);

    let all = blog_backend::blog::get_posts(Some("alice".to_string()), true, true, None).unwrap();
    assert_eq!(all.skip, 0);
    assert_eq!(all.limit, i64::MAX);
    assert!(all.filter.draft && all.filter.hidden);
    assert_eq!(all.filter.creator.as_deref(), Some("alice"));
}

#[test]
fn get_posts_wraps_a_negative_skip() {
    let page = Pagination { page: 0, limit: 10 };
    let query = blog_backend::blog::get_posts(None, false, false, Some(page)).unwrap();
    assert_eq!(query.skip, (-10i64) as u64);
    let page = Pagination { page: 2, limit: -1 };
    let query = blog_backend::blog::get_posts(None, false, false, Some(page)).unwrap();
    assert_eq!(query.skip, u64::MAX);
    assert_eq!(query.limit, -1);
    let page = Pagination { page: 2, limit: i64::MIN };
    let query = blog_backend::blog::get_posts(None, false, false, Some(page)).unwrap();
    assert_eq!(query.skip, 1u64 << 63);
}

#[test]
fn get_posts_of_an_uncountable_page_is_none() {
    let page = Pagination { page: i64::MAX, limit: 50 };
    assert!(blog_backend::blog::get_posts(None, false, false, Some(page)).is_none());
}

#[test]
fn drafts_asks_for_the_accounts_own_drafts() {
    let query = blog_backend::blog::drafts(&account("alice", false));
    assert_eq!(query.skip, 0);
    assert_eq!(query.limit, i64::MAX);
    assert!(query.filter.draft);
    assert!(!query.filter.hidden);
    assert_eq!(query.filter.creator.as_deref(), Some("alice"));
}
