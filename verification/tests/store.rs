use blog::error::BlogError;
use blog::model::{Article, Comment, User, UserInfo};
use blog::oid::ObjectId;
use blog::page::{fetch_article_full, fetch_article_with_comment_window};
use blog::pagination::{page_numbers, window};
use blog::store::Store;

fn oid(n: u64) -> ObjectId {
    ObjectId { seconds: 1_641_483_514, unique: n }
}

fn user(id: ObjectId, name: &str) -> User {
    User {
        id,
        username: name.to_owned(),
        auth_type: "local".to_owned(),
        inner: None,
        created_time: 1_000,
        updated_time: 1_000,
        status: 1,
    }
}

fn article(id: ObjectId, author: ObjectId, title: &str) -> Article {
    Article {
        id,
        title: title.to_owned(),
        raw_content: "text".to_owned(),
        tags: "t".to_owned(),
        author_id: author,
        created_time: 0,
        updated_time: 0,
        status: 1,
        comments: None,
        total_comments: None,
        author_name: None,
    }
}

fn comment(author: ObjectId, text: &str) -> Comment {
    Comment::written_at(text.to_owned(), author, "reader".to_owned(), None, None, 5_000)
}

fn store_with_comments(n: usize) -> Store {
    let mut store = Store::new();
    store.insert_user(user(oid(1), "joey")).unwrap();
    store.insert_article(article(oid(100), oid(1), "hello"), 2_000).unwrap();
    for i in 0..n {
        assert!(store.append_comment(oid(100), comment(oid(1), &format!("c{}", i))));
    }
    store
}

#[test]
fn window_read_of_missing_article_is_not_found() {
    let store = store_with_comments(3);
    let r = store.find_article_with_comment_window(oid(999), 0, 20);
    assert!(matches!(r, Err(BlogError::NotFound)));
    let r = fetch_article_with_comment_window(&store, oid(999), 0, 20);
    assert!(matches!(r, Err(BlogError::NotFound)));
}

#[test]
fn window_read_with_missing_author_is_dangling() {
    let mut store = Store::new();
    store.insert_article(article(oid(100), oid(1), "orphan"), 2_000).unwrap();
    let r = store.find_article_with_comment_window(oid(100), 0, 20);
    assert!(matches!(r, Err(BlogError::DanglingReference)));
    let r = fetch_article_with_comment_window(&store, oid(100), 0, 20);
    assert!(matches!(r, Err(BlogError::DanglingReference)));
}

#[test]
fn window_read_of_article_without_comments() {
    let store = store_with_comments(0);
    for (offset, limit) in [(0i64, 20i32), (40, 20), (7, 1), (i64::MAX, i32::MAX)] {
        let read = store.find_article_with_comment_window(oid(100), offset, limit).unwrap();
        assert_eq!(read.total_comments, Some(0));
        assert_eq!(read.comments.unwrap().len(), 0);
        assert_eq!(read.author_name.as_deref(), Some("joey"));
    }
}

#[test]
fn window_read_past_the_end_is_empty_with_total() {
    let store = store_with_comments(3);
    for offset in [3i64, 4, 20, i64::MAX] {
        let read = store.find_article_with_comment_window(oid(100), offset, 20).unwrap();
        assert_eq!(read.total_comments, Some(3));
        assert!(read.comments.unwrap().is_empty());
    }
}

#[test]
fn window_read_returns_the_window_in_order() {
    let store = store_with_comments(7);
    let read = store.find_article_with_comment_window(oid(100), 2, 3).unwrap();
    let texts: Vec<String> = read.comments.unwrap().into_iter().map(|c| c.content).collect();
    assert_eq!(texts, vec!["c2", "c3", "c4"]);
    assert_eq!(read.total_comments, Some(7));
    assert_eq!(read.title, "hello");
    assert_eq!(read.created_time, 2_000);
    let read = store.find_article_with_comment_window(oid(100), 5, 3).unwrap();
    let texts: Vec<String> = read.comments.unwrap().into_iter().map(|c| c.content).collect();
    assert_eq!(texts, vec!["c5", "c6"]);
}

#[test]
fn forty_five_comments_in_pages_of_twenty() {
    let store = store_with_comments(45);
    let first = window(Some(1), 20);
    assert_eq!((first.offset, first.limit), (0, 20));
    let third = window(Some(3), 20);
    assert_eq!((third.offset, third.limit), (40, 20));
    let view = fetch_article_with_comment_window(&store, oid(100), third.offset, third.limit).unwrap();
    assert_eq!(view.comments.len(), 5);
    assert_eq!(view.comments[0].content, "c40");
    assert_eq!(view.comments[4].content, "c44");
    assert_eq!(view.total_comments, 45);
    assert_eq!(view.comment_page_nums, vec![1, 2, 3]);
    assert_eq!(page_numbers(45, 20), vec![1, 2, 3]);
    let view = fetch_article_with_comment_window(&store, oid(100), first.offset, first.limit).unwrap();
    assert_eq!(view.comments.len(), 20);
}

#[test]
fn append_comment_to_missing_article_changes_nothing() {
    let mut store = store_with_comments(2);
    assert!(!store.append_comment(oid(999), comment(oid(1), "lost")));
    let read = store.find_article_with_comment_window(oid(100), 0, 20).unwrap();
    assert_eq!(read.total_comments, Some(2));
}

#[test]
fn two_appends_keep_both_comments() {
    let mut store = store_with_comments(3);
    assert!(store.append_comment(oid(100), comment(oid(1), "first")));
    assert!(store.append_comment(oid(100), comment(oid(1), "second")));
    let read = store.find_article_with_comment_window(oid(100), 0, 20).unwrap();
    assert_eq!(read.total_comments, Some(5));
    let texts: Vec<String> = read.comments.unwrap().into_iter().map(|c| c.content).collect();
    assert_eq!(texts, vec!["c0", "c1", "c2", "first", "second"]);
}

#[test]
fn append_leaves_other_articles_alone() {
    let mut store = store_with_comments(1);
    store.insert_article(article(oid(101), oid(1), "other"), 3_000).unwrap();
    assert!(store.append_comment(oid(101), comment(oid(1), "x")));
    assert_eq!(store.find_article_by_id(oid(100)).unwrap().comments.as_ref().unwrap().len(), 1);
    assert_eq!(store.find_article_by_id(oid(101)).unwrap().comments.as_ref().unwrap().len(), 1);
}

#[test]
fn create_article_stores_scalars_only() {
    let mut store = Store::new();
    let mut a = article(oid(100), oid(1), "hello");
    a.comments = Some(vec![comment(oid(1), "dropped")]);
    a.status = 9;
    assert_eq!(store.insert_article(a, 2_000).unwrap(), oid(100));
    let stored = store.find_article_by_id(oid(100)).unwrap();
    assert!(stored.comments.is_none());
    assert_eq!(stored.status, 1);
    assert_eq!(stored.created_time, 2_000);
    assert_eq!(stored.updated_time, 2_000);
}

#[test]
fn create_article_refuses_taken_id() {
    let mut store = store_with_comments(0);
    let r = store.insert_article(article(oid(100), oid(1), "again"), 9_000);
    assert!(matches!(r, Err(BlogError::BackendError(_))));
    assert_eq!(store.find_article_by_id(oid(100)).unwrap().title, "hello");
}

#[test]
fn create_user_refuses_taken_id() {
    let mut store = store_with_comments(0);
    let r = store.insert_user(user(oid(1), "twin"));
    assert!(matches!(r, Err(BlogError::BackendError(_))));
    assert_eq!(store.find_user_by_id(oid(1)).unwrap().username, "joey");
}

#[test]
fn update_article_replaces_fields_and_keeps_comments() {
    let mut store = store_with_comments(2);
    let mut edited = article(oid(100), oid(77), "new title");
    edited.raw_content = "new text".to_owned();
    edited.tags = "new tags".to_owned();
    edited.status = 2;
    assert!(store.update_article_fields(edited, 8_000));
    let stored = store.find_article_by_id(oid(100)).unwrap();
    assert_eq!(stored.title, "new title");
    assert_eq!(stored.raw_content, "new text");
    assert_eq!(stored.tags, "new tags");
    assert_eq!(stored.status, 2);
    assert_eq!(stored.updated_time, 8_000);
    assert_eq!(stored.created_time, 2_000);
    assert_eq!(stored.author_id, oid(1));
    assert_eq!(stored.comments.as_ref().unwrap().len(), 2);
}

#[test]
fn update_of_missing_article_matches_nothing() {
    let mut store = store_with_comments(0);
    assert!(!store.update_article_fields(article(oid(5), oid(1), "x"), 8_000));
}

#[test]
fn list_articles_joins_authors_and_counts() {
    let mut store = store_with_comments(3);
    store.insert_article(article(oid(102), oid(1), "second"), 4_000).unwrap();
    let list = store.list_articles().unwrap();
    assert_eq!(list.len(), 2);
    assert_eq!(list[0].id, oid(100));
    assert_eq!(list[0].title, "hello");
    assert_eq!(list[0].total_comments, Some(3));
    assert_eq!(list[0].author_name.as_deref(), Some("joey"));
    assert!(list[0].comments.is_none());
    assert_eq!(list[1].id, oid(102));
    assert_eq!(list[1].title, "second");
    assert_eq!(list[1].total_comments, Some(0));
}

#[test]
fn list_articles_reports_a_missing_author() {
    let mut store = store_with_comments(3);
    store.insert_article(article(oid(101), oid(2), "orphan"), 3_000).unwrap();
    store.insert_article(article(oid(102), oid(1), "second"), 4_000).unwrap();
    assert!(matches!(store.list_articles(), Err(BlogError::DanglingReference)));
}

#[test]
fn list_articles_of_empty_store_is_empty() {
    assert!(Store::new().list_articles().unwrap().is_empty());
}

#[test]
fn find_user_by_external_id_matches_provider_and_remote_id() {
    let mut store = Store::new();
    let info = UserInfo {
        id: 42,
        login: "l".to_owned(),
        name: "n".to_owned(),
        avatar_url: "a".to_owned(),
        blog: "b".to_owned(),
        created_at: "c".to_owned(),
        email: None,
    };
    let mut u = user(oid(1), "remote");
    u.auth_type = "gitee".to_owned();
    u.inner = Some(info);
    store.insert_user(u).unwrap();
    store.insert_user(user(oid(2), "local")).unwrap();
    assert_eq!(store.find_user_by_external_id(&"gitee".to_owned(), 42).unwrap().id, oid(1));
    assert!(store.find_user_by_external_id(&"gitee".to_owned(), 43).is_none());
    assert!(store.find_user_by_external_id(&"github".to_owned(), 42).is_none());
}

#[test]
fn fetch_article_full_returns_all_comments() {
    let store = store_with_comments(25);
    let a = fetch_article_full(&store, oid(100)).unwrap();
    assert_eq!(a.comments.unwrap().len(), 25);
    assert!(a.author_name.is_none());
    assert!(matches!(fetch_article_full(&store, oid(3)), Err(BlogError::NotFound)));
}

#[test]
fn update_never_predates_creation() {
    let mut store = store_with_comments(0);
    assert!(store.update_article_fields(article(oid(100), oid(1), "early"), 1_000));
    let stored = store.find_article_by_id(oid(100)).unwrap();
    assert_eq!(stored.title, "early");
    assert_eq!(stored.created_time, 2_000);
    assert_eq!(stored.updated_time, 2_000);
}
