use blog::error::BlogError;
use blog::model::{Article, Comment, User};
use blog::oid::ObjectId;
use blog::page::{
    apply_edit, article_from_form, article_page, article_query, edit_form,
    comment_from_form, CommentArticleParams, EditArticleParams, FindArticle, PublishArticleParams,
};
use blog::view::{comment_views, time_text, ArticleDetailView, CommentView};

fn read_article() -> Article {
    Article {
        id: ObjectId { seconds: 0x61d70cfa, unique: 0x4a138b2ed4f4b088 },
        title: "Title".to_owned(),
        raw_content: "hello **world**".to_owned(),
        tags: "rust".to_owned(),
        author_id: ObjectId { seconds: 1, unique: 2 },
        created_time: 1_641_483_514_000,
        updated_time: 1_641_483_514_000,
        status: 1,
        comments: Some(vec![Comment::written_at(
            "nice".to_owned(),
            ObjectId { seconds: 0, unique: 255 },
            "reader".to_owned(),
            Some(ObjectId { seconds: 0xffffffff, unique: u64::MAX }),
            Some("joey".to_owned()),
            0,
        )]),
        total_comments: Some(41),
        author_name: Some("joey".to_owned()),
    }
}

#[test]
fn object_id_hex_round_trip() {
    let id = ObjectId::parse_str("61d70cfa4a138b2ed4f4b088").unwrap();
    assert_eq!(id.seconds, 0x61d70cfa);
    assert_eq!(id.unique, 0x4a138b2ed4f4b088);
    assert_eq!(id.to_hex(), "61d70cfa4a138b2ed4f4b088");
}

#[test]
fn object_id_hex_is_padded_and_lowercase() {
    assert_eq!(ObjectId { seconds: 0, unique: 0 }.to_hex(), "000000000000000000000000");
    assert_eq!(ObjectId { seconds: 0, unique: 0xAB }.to_hex(), "0000000000000000000000ab");
    assert_eq!(ObjectId { seconds: 1, unique: 0 }.to_hex(), "000000010000000000000000");
}

#[test]
fn object_id_parse_accepts_upper_case() {
    let id = ObjectId::parse_str("61D70CFA4A138B2ED4F4B088").unwrap();
    assert_eq!(id, ObjectId { seconds: 0x61d70cfa, unique: 0x4a138b2ed4f4b088 });
}

#[test]
fn object_id_parse_refuses_bad_text() {
    assert!(ObjectId::parse_str("").is_none());
    assert!(ObjectId::parse_str("61d70cfa4a138b2ed4f4b08").is_none());
    assert!(ObjectId::parse_str("61d70cfa4a138b2ed4f4b0880").is_none());
    assert!(ObjectId::parse_str("61d70cfa4a138b2ed4f4b08g").is_none());
    assert!(ObjectId::parse_str("61d70cfa4a138b2ed4f4b0é").is_none());
}

#[test]
fn generated_ids_differ() {
    assert_ne!(ObjectId::generate(), ObjectId::generate());
}

#[test]
fn time_text_is_shown_eight_hours_east() {
    assert_eq!(time_text(0).unwrap(), "1970-01-01 08:00:00");
    assert_eq!(time_text(1_641_483_514_000).unwrap(), "2022-01-06 23:38:34");
    assert_eq!(time_text(-1).unwrap(), "1970-01-01 07:59:59");
}

#[test]
fn time_text_of_unrepresentable_instant_is_none() {
    assert!(time_text(i64::MAX).is_none());
    assert!(time_text(i64::MIN).is_none());
}

#[test]
fn comment_view_writes_ids_and_time() {
    let a = read_article();
    let c = &a.comments.as_ref().unwrap()[0];
    let v = CommentView::from_comment(c).unwrap();
    assert_eq!(v.content, "nice");
    assert_eq!(v.author_id, "0000000000000000000000ff");
    assert_eq!(v.author_name, "reader");
    assert_eq!(v.reply_to.as_deref(), Some("ffffffffffffffffffffffff"));
    assert_eq!(v.reply_to_name.as_deref(), Some("joey"));
    assert_eq!(v.created_time, "1970-01-01 08:00:00");
    assert_eq!(v.status, 1);
    let w = CommentView::with_time(c, "then".to_owned());
    assert_eq!(w.created_time, "then");
    assert_eq!(w.author_id, "0000000000000000000000ff");
}

#[test]
fn comment_views_fail_on_unrepresentable_time() {
    let mut a = read_article();
    a.comments.as_mut().unwrap()[0].created_time = i64::MAX;
    assert!(comment_views(a.comments.as_ref().unwrap()).is_none());
    assert!(matches!(ArticleDetailView::from_article(a), Err(BlogError::BackendError(_))));
}

#[test]
fn article_view_of_a_read() {
    let v = ArticleDetailView::from_article(read_article()).unwrap();
    assert_eq!(v.id, "61d70cfa4a138b2ed4f4b088");
    assert_eq!(v.title, "Title");
    assert_eq!(v.raw_content, "hello **world**");
    assert_eq!(v.tags, "rust");
    assert_eq!(v.author_id, "000000010000000000000002");
    assert_eq!(v.author_name, "joey");
    assert_eq!(v.created_time, "2022-01-06 23:38:34");
    assert_eq!(v.status, 1);
    assert_eq!(v.comments.len(), 1);
    assert_eq!(v.total_comments, 41);
    assert_eq!(v.comment_page_nums, vec![1, 2, 3]);
}

#[test]
fn article_view_without_author_name_is_dangling() {
    let mut a = read_article();
    a.author_name = None;
    assert!(matches!(ArticleDetailView::from_article(a), Err(BlogError::DanglingReference)));
}

#[test]
fn article_view_without_count_is_malformed() {
    let mut a = read_article();
    a.total_comments = None;
    assert!(matches!(ArticleDetailView::from_article(a), Err(BlogError::BackendError(_))));
}

#[test]
fn article_view_without_comments_has_one_page() {
    let mut a = read_article();
    a.comments = None;
    a.total_comments = Some(0);
    let v = ArticleDetailView::from_article(a).unwrap();
    assert!(v.comments.is_empty());
    assert_eq!(v.comment_page_nums, vec![1]);
}

#[test]
fn article_page_marks_the_author() {
    let v = ArticleDetailView::from_article(read_article()).unwrap();
    let page = article_page(v, Some("000000010000000000000002".to_owned()), Some(2));
    assert_eq!(page.article.raw_content, "hello **world**");
    assert!(page.is_author);
    assert_eq!(page.comment_current_page, 2);
    assert_eq!(page.article.title, "Title");
    assert_eq!(page.article.comment_page_nums, vec![1, 2, 3]);
}

#[test]
fn article_page_for_other_readers() {
    let v = ArticleDetailView::from_article(read_article()).unwrap();
    let page = article_page(v, Some("someone else".to_owned()), Some(-3));
    assert!(!page.is_author);
    assert_eq!(page.comment_current_page, 1);
    let v = ArticleDetailView::from_article(read_article()).unwrap();
    let page = article_page(v, None, None);
    assert!(!page.is_author);
    assert_eq!(page.comment_current_page, 1);
}

#[test]
fn article_query_reads_id_and_window() {
    let q = article_query(&FindArticle {
        id: Some("61d70cfa4a138b2ed4f4b088".to_owned()),
        comment_page: Some(3),
    })
    .unwrap();
    assert_eq!(q.id, ObjectId { seconds: 0x61d70cfa, unique: 0x4a138b2ed4f4b088 });
    assert_eq!((q.window.offset, q.window.limit), (40, 20));
    let q = article_query(&FindArticle {
        id: Some("61d70cfa4a138b2ed4f4b088".to_owned()),
        comment_page: None,
    })
    .unwrap();
    assert_eq!((q.window.offset, q.window.limit), (0, 20));
}

#[test]
fn article_query_without_valid_id_is_not_found() {
    let r = article_query(&FindArticle { id: None, comment_page: Some(1) });
    assert!(matches!(r, Err(BlogError::NotFound)));
    let r = article_query(&FindArticle { id: Some("nope".to_owned()), comment_page: Some(1) });
    assert!(matches!(r, Err(BlogError::NotFound)));
}

#[test]
fn forms_become_articles() {
    let a = article_from_form(
        PublishArticleParams {
            title: "t".to_owned(),
            raw_content: "r".to_owned(),
            tags: "g".to_owned(),
        },
        ObjectId { seconds: 1, unique: 1 },
        ObjectId { seconds: 2, unique: 2 },
        77,
    );
    assert_eq!(a.author_id, ObjectId { seconds: 1, unique: 1 });
    assert_eq!(a.id, ObjectId { seconds: 2, unique: 2 });
    assert_eq!((a.title.as_str(), a.raw_content.as_str(), a.tags.as_str()), ("t", "r", "g"));
    assert_eq!((a.created_time, a.updated_time, a.status), (77, 77, 1));
    let e = apply_edit(
        read_article(),
        EditArticleParams {
            id: "61d70cfa4a138b2ed4f4b088".to_owned(),
            title: "t2".to_owned(),
            raw_content: "r2".to_owned(),
            tags: "g2".to_owned(),
        },
    );
    assert_eq!((e.title.as_str(), e.raw_content.as_str(), e.tags.as_str()), ("t2", "r2", "g2"));
    assert_eq!(e.id, read_article().id);
    assert_eq!(e.comments.unwrap().len(), 1);
}

#[test]
fn comment_form_becomes_a_comment() {
    let c = comment_from_form(
        CommentArticleParams {
            reply_to: Some("0000000000000000000000ff".to_owned()),
            article_id: "61d70cfa4a138b2ed4f4b088".to_owned(),
            content: "hi".to_owned(),
        },
        "000000010000000000000002".to_owned(),
        "joey".to_owned(),
        Some("reader".to_owned()),
    )
    .unwrap();
    assert_eq!(c.content, "hi");
    assert_eq!(c.author_id, ObjectId { seconds: 1, unique: 2 });
    assert_eq!(c.author_name, "joey");
    assert_eq!(c.reply_to, Some(ObjectId { seconds: 0, unique: 255 }));
    assert_eq!(c.reply_to_name.as_deref(), Some("reader"));
    assert_eq!(c.created_time, c.updated_time);
    assert_eq!(c.status, 1);
    let bad = comment_from_form(
        CommentArticleParams {
            reply_to: None,
            article_id: "61d70cfa4a138b2ed4f4b088".to_owned(),
            content: "hi".to_owned(),
        },
        "not an id".to_owned(),
        "joey".to_owned(),
        None,
    );
    assert!(bad.is_none());
}

#[test]
fn comment_new_parses_its_ids() {
    let c = Comment::new(
        "hi".to_owned(),
        "000000010000000000000002".to_owned(),
        "joey".to_owned(),
        None,
        None,
    );
    assert_eq!(c.author_id, ObjectId { seconds: 1, unique: 2 });
    assert!(c.reply_to.is_none());
    assert_eq!(c.status, 1);
}

#[test]
fn defaults_are_empty_and_published() {
    let a = Article::default();
    assert_eq!(a.title, "");
    assert_eq!(a.status, 1);
    assert!(a.comments.is_none());
    assert_eq!(a.created_time, a.updated_time);
    let u = User::default();
    assert_eq!(u.username, "");
    assert_eq!(u.auth_type, "");
    assert!(u.inner.is_none());
    assert!(u.updated_time < u.created_time);
}

#[test]
fn article_view_from_written_time_and_comment_views() {
    let a = read_article();
    let shown = vec![CommentView::with_time(&a.comments.as_ref().unwrap()[0], "then".to_owned())];
    let v = ArticleDetailView::with_time(&a, "some day".to_owned(), shown).unwrap();
    assert_eq!(v.id, "61d70cfa4a138b2ed4f4b088");
    assert_eq!(v.author_id, "000000010000000000000002");
    assert_eq!(v.author_name, "joey");
    assert_eq!(v.created_time, "some day");
    assert_eq!(v.title, "Title");
    assert_eq!(v.raw_content, "hello **world**");
    assert_eq!(v.tags, "rust");
    assert_eq!(v.status, 1);
    assert_eq!(v.comments.len(), 1);
    assert_eq!(v.comments[0].created_time, "then");
    assert_eq!(v.total_comments, 41);
    assert_eq!(v.comment_page_nums, vec![1, 2, 3]);
}

#[test]
fn article_view_from_written_time_needs_author_and_count() {
    let mut a = read_article();
    a.author_name = None;
    a.total_comments = None;
    let r = ArticleDetailView::with_time(&a, String::new(), Vec::new());
    assert!(matches!(r, Err(BlogError::DanglingReference)));
    let mut a = read_article();
    a.total_comments = None;
    let r = ArticleDetailView::with_time(&a, String::new(), Vec::new());
    assert!(matches!(r, Err(BlogError::BackendError(_))));
}

#[test]
fn article_view_reports_missing_author_before_bad_time() {
    let mut a = read_article();
    a.author_name = None;
    a.created_time = i64::MAX;
    assert!(matches!(ArticleDetailView::from_article(a), Err(BlogError::DanglingReference)));
}

#[test]
fn edit_form_is_filled_from_the_stored_article() {
    let form = edit_form(&read_article());
    assert_eq!(form.id, "61d70cfa4a138b2ed4f4b088");
    assert_eq!(form.title, "Title");
    assert_eq!(form.raw_content, "hello **world**");
    assert_eq!(form.tags, "rust");
}
