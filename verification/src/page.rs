//! What each request decides before anything is rendered: which article and
//! which window a reader asked for, what an article page shows, and what a
//! form turns into.

use crate::error::BlogError;
use crate::model::{Article, Comment, STATUS_PUBLISHED};
use crate::oid::{is_object_id_hex, object_id_of, ObjectId};
use crate::pagination::{
    comment_page_size, current_page, normalized_page, window, window_offset, Window,
    COMMENT_PAGE_SIZE,
};
use crate::store::{holds_article, holds_user, Store};
use crate::view::{is_showable, shows_article, shows_window, window_showable, ArticleDetailView};
use vstd::prelude::*;

verus! {

/// Query of a request for an article.
#[derive(Debug)]
pub struct FindArticle {
    pub id: Option<String>,
    pub comment_page: Option<i32>,
}

/// Form of a new article.
#[derive(Debug)]
pub struct PublishArticleParams {
    pub title: String,
    pub raw_content: String,
    pub tags: String,
}

/// Form of an edited article.
#[derive(Debug)]
pub struct EditArticleParams {
    pub id: String,
    pub title: String,
    pub raw_content: String,
    pub tags: String,
}

/// Query of a request for the comment form.
#[derive(Debug)]
pub struct NewCommentPageReq {
    pub article_id: String,
    pub reply_to: Option<String>,
}

/// Form of a new comment.
#[derive(Debug)]
pub struct CommentArticleParams {
    pub reply_to: Option<String>,
    pub article_id: String,
    pub content: String,
}

/// The article and the window of its comments that a reader asked for.
#[derive(Clone, Copy, Debug, PartialEq, Eq, Structural)]
pub struct ArticleQuery {
    pub id: ObjectId,
    pub window: Window,
}

/// What the page of one article shows.
#[derive(Debug)]
pub struct ArticlePage {
    /// The article with the page of comments that is shown.
    pub article: ArticleDetailView,
    /// Whether the reader wrote the article and may edit it.
    pub is_author: bool,
    /// The page of comments that is shown.
    pub comment_current_page: i32,
}

/// Reads which article and which comments a request asks for. A request
/// without an identifier, or with one that is not 24 hexadecimal digits,
/// names no article.
pub fn article_query(request: &FindArticle) -> (r: Result<ArticleQuery, BlogError>)
    ensures
        r is Ok <==> (request.id matches Some(text) && is_object_id_hex(text@)),
        r matches Ok(query) ==> query.id == object_id_of(request.id.unwrap()@)
            && query.window.offset == window_offset(request.comment_page, COMMENT_PAGE_SIZE as int)
            && query.window.limit == COMMENT_PAGE_SIZE,
        r matches Err(e) ==> e == BlogError::NotFound,
{
    let text = match &request.id {
        Some(text) => text,
        None => { return Err(BlogError::NotFound); },
    };
    match ObjectId::parse_str(text.as_str()) {
        Some(id) => Ok(
            ArticleQuery { id, window: window(request.comment_page, comment_page_size()) },
        ),
        None => Err(BlogError::NotFound),
    }
}

/// Whether `r` is what showing the article `id` with one window of its
/// comments gives: a missing article is `NotFound`, a missing author a
/// `DanglingReference`, a time that cannot be written a `BackendError`, and
/// otherwise the view of the article with the comments inside the window.
pub open spec fn is_fetch_outcome(
    store: Store,
    id: ObjectId,
    offset: int,
    limit: int,
    r: Result<ArticleDetailView, BlogError>,
) -> bool {
    if !holds_article(store.articles(), id) {
        r == Err::<ArticleDetailView, BlogError>(BlogError::NotFound)
    } else if !holds_user(store.users(), store.article(id).author_id) {
        r == Err::<ArticleDetailView, BlogError>(BlogError::DanglingReference)
    } else if !window_showable(store.article(id), offset, limit) {
        r is Err && r.unwrap_err() is BackendError
    } else {
        &&& r is Ok
        &&& shows_window(
            store.article(id),
            store.user(store.article(id).author_id).username,
            offset,
            limit,
            r.unwrap(),
        )
    }
}

/// Reads an article with the requested window of its comments and turns it
/// into its view.
pub fn fetch_article_with_comment_window(store: &Store, id: ObjectId, offset: i64, limit: i32) -> (r: Result<ArticleDetailView, BlogError>)
    requires
        store.wf(),
        offset >= 0,
        limit > 0,
    ensures
        is_fetch_outcome(*store, id, offset as int, limit as int, r),
{
    match store.find_article_with_comment_window(id, offset, limit) {
        Ok(read) => ArticleDetailView::from_article(read),
        Err(e) => Err(e),
    }
}

/// Reads an article whole, with all of its comments and without its
/// author's name, as the edit form needs it.
pub fn fetch_article_full(store: &Store, id: ObjectId) -> (r: Result<Article, BlogError>)
    requires
        store.wf(),
    ensures
        !holds_article(store.articles(), id) ==> r == Err::<Article, BlogError>(BlogError::NotFound),
        holds_article(store.articles(), id) ==> r is Ok && r.unwrap().agrees_with(
            store.article(id),
        ),
{
    match store.find_article_by_id(id) {
        Some(article) => Ok(article.clone()),
        None => Err(BlogError::NotFound),
    }
}

/// Whether the reader signed in as `uid` wrote the article whose author's
/// identifier reads `author_id`.
pub open spec fn reader_is_author(uid: Option<String>, author_id: Seq<char>) -> bool {
    uid matches Some(reader) && reader@ == author_id
}

/// The page of `view` for a reader signed in as `uid` who asked for
/// `comment_page`: the view itself, whether the reader is its author, and
/// the page of comments shown.
pub fn article_page(view: ArticleDetailView, uid: Option<String>, comment_page: Option<i32>) -> (page: ArticlePage)
    ensures
        page.article == view,
        page.is_author == reader_is_author(uid, view.author_id@),
        page.comment_current_page == normalized_page(comment_page),
{
    let is_author = match &uid {
        Some(reader) => *reader == view.author_id,
        None => false,
    };
    ArticlePage { article: view, is_author, comment_current_page: current_page(comment_page) }
}

/// Whether `page` is the page of the stored article `stored`, written by a
/// user named `author_name`, for a reader signed in as `uid` who asked for
/// `comment_page`: the article with that page of its comments, and whether
/// the reader is its author.
pub open spec fn shows_page(
    stored: Article,
    author_name: String,
    uid: Option<String>,
    comment_page: Option<i32>,
    page: ArticlePage,
) -> bool {
    &&& shows_window(
        stored,
        author_name,
        window_offset(comment_page, COMMENT_PAGE_SIZE as int),
        COMMENT_PAGE_SIZE as int,
        page.article,
    )
    &&& page.is_author == reader_is_author(uid, stored.author_id.hex())
    &&& page.comment_current_page == normalized_page(comment_page)
}

/// Whether `r` is the answer to a request for an article page by a reader
/// signed in as `uid`: a request that names no stored article is
/// `NotFound`, and the other failures are those of reading the article.
pub open spec fn is_details_outcome(
    store: Store,
    request: FindArticle,
    uid: Option<String>,
    r: Result<ArticlePage, BlogError>,
) -> bool {
    if !(request.id matches Some(text) && is_object_id_hex(text@) && holds_article(
        store.articles(),
        object_id_of(text@),
    )) {
        r == Err::<ArticlePage, BlogError>(BlogError::NotFound)
    } else {
        let stored = store.article(object_id_of(request.id.unwrap()@));
        if !holds_user(store.users(), stored.author_id) {
            r == Err::<ArticlePage, BlogError>(BlogError::DanglingReference)
        } else if !window_showable(
            stored,
            window_offset(request.comment_page, COMMENT_PAGE_SIZE as int),
            COMMENT_PAGE_SIZE as int,
        ) {
            r is Err && r.unwrap_err() is BackendError
        } else {
            &&& r is Ok
            &&& shows_page(
                stored,
                store.user(stored.author_id).username,
                uid,
                request.comment_page,
                r.unwrap(),
            )
        }
    }
}

/// Answers a request for an article page: reads the article with the
/// requested page of its comments and builds the page for the reader signed
/// in as `uid`.
pub fn article_details(request: &FindArticle, uid: Option<String>, store: &Store) -> (r: Result<ArticlePage, BlogError>)
    requires
        store.wf(),
    ensures
        is_details_outcome(*store, *request, uid, r),
{
    let query = match article_query(request) {
        Ok(query) => query,
        Err(e) => { return Err(e); },
    };
    match fetch_article_with_comment_window(store, query.id, query.window.offset, query.window.limit) {
        Ok(view) => Ok(article_page(view, uid, request.comment_page)),
        Err(e) => Err(e),
    }
}

/// Whether the article at place `k` is the first of `articles` that cannot
/// be shown, and `e` the failure that says so.
pub open spec fn is_first_failure(articles: Seq<Article>, k: int, e: BlogError) -> bool {
    &&& 0 <= k < articles.len()
    &&& !is_showable(articles[k])
    &&& forall|i: int| 0 <= i < k ==> is_showable(#[trigger] articles[i])
    &&& articles[k].author_name is None ==> e == BlogError::DanglingReference
    &&& articles[k].author_name is Some ==> e is BackendError
}

/// The front page: the view of every listed article, in order. A listed
/// article that cannot be shown fails the page: with a dangling reference
/// where the first such article lacks its author's name, and else with a
/// backend error.
pub fn index(articles: Vec<Article>) -> (r: Result<Vec<ArticleDetailView>, BlogError>)
    ensures
        r is Ok <==> forall|i: int| 0 <= i < articles@.len() ==> is_showable(#[trigger] articles@[i]),
        r matches Ok(views) ==> views@.len() == articles@.len() && forall|i: int|
            0 <= i < views@.len() ==> shows_article(articles@[i], #[trigger] views@[i]),
        r matches Err(e) ==> exists|k: int| is_first_failure(articles@, k, e),
{
    let mut views: Vec<ArticleDetailView> = Vec::new();
    let mut i: usize = 0;
    while i < articles.len()
        invariant
            i <= articles@.len(),
            views@.len() == i,
            forall|k: int| 0 <= k < i ==> is_showable(#[trigger] articles@[k]),
            forall|k: int| 0 <= k < i ==> shows_article(articles@[k], #[trigger] views@[k]),
        decreases articles@.len() - i,
    {
        match ArticleDetailView::of(&articles[i]) {
            Ok(view) => { views.push(view); },
            Err(e) => {
                assert(is_first_failure(articles@, i as int, e));
                return Err(e);
            },
        }
        i = i + 1;
    }
    Ok(views)
}

/// The article that a publish form asks for, written by `author_id` under
/// the identifier `id`.
pub fn article_from_form(params: PublishArticleParams, author_id: ObjectId, id: ObjectId, now: i64) -> (a: Article)
    ensures
        a == (Article {
            id,
            title: params.title,
            raw_content: params.raw_content,
            tags: params.tags,
            author_id,
            created_time: now,
            updated_time: now,
            status: STATUS_PUBLISHED,
            comments: None,
            total_comments: None,
            author_name: None,
        }),
{
    Article {
        id,
        title: params.title,
        raw_content: params.raw_content,
        tags: params.tags,
        author_id,
        created_time: now,
        updated_time: now,
        status: STATUS_PUBLISHED,
        comments: None,
        total_comments: None,
        author_name: None,
    }
}

/// The edit form filled in from the stored `article`: its identifier in
/// text form, and its title, text and tags as they are stored.
pub fn edit_form(article: &Article) -> (form: EditArticleParams)
    ensures
        form.id@ == article.id.hex(),
        form.title == article.title,
        form.raw_content == article.raw_content,
        form.tags == article.tags,
{
    EditArticleParams {
        id: article.id.to_hex(),
        title: article.title.clone(),
        raw_content: article.raw_content.clone(),
        tags: article.tags.clone(),
    }
}

/// The stored `article` with its title, text and tags replaced by those of
/// an edit form.
pub fn apply_edit(article: Article, params: EditArticleParams) -> (a: Article)
    ensures
        a == (Article {
            title: params.title,
            raw_content: params.raw_content,
            tags: params.tags,
            ..article
        }),
{
    Article {
        id: article.id,
        title: params.title,
        raw_content: params.raw_content,
        tags: params.tags,
        author_id: article.author_id,
        created_time: article.created_time,
        updated_time: article.updated_time,
        status: article.status,
        comments: article.comments,
        total_comments: article.total_comments,
        author_name: article.author_name,
    }
}

/// Whether `c` is the published comment that the form `params` asks for,
/// written by the reader signed in as `uid` under the name `username`.
pub open spec fn is_form_comment(
    params: CommentArticleParams,
    uid: String,
    username: String,
    reply_to_name: Option<String>,
    c: Comment,
) -> bool {
    &&& c.content == params.content
    &&& c.author_id == object_id_of(uid@)
    &&& c.author_name == username
    &&& params.reply_to is None <==> c.reply_to is None
    &&& params.reply_to matches Some(target) ==> c.reply_to == Some(object_id_of(target@))
    &&& c.reply_to_name == reply_to_name
    &&& c.created_time == c.updated_time
    &&& c.status == STATUS_PUBLISHED
}

/// The comment that a comment form asks for, written by the reader signed
/// in as `uid` under the name `username`; `reply_to_name` is the name of the
/// user replied to. None when `uid` or the form's reply target is not an
/// identifier.
pub fn comment_from_form(
    params: CommentArticleParams,
    uid: String,
    username: String,
    reply_to_name: Option<String>,
) -> (r: Option<Comment>)
    ensures
        r is Some <==> is_object_id_hex(uid@) && (params.reply_to matches Some(target)
            ==> is_object_id_hex(target@)),
        r matches Some(c) ==> is_form_comment(params, uid, username, reply_to_name, c),
{
    if ObjectId::parse_str(uid.as_str()).is_none() {
        return None;
    }
    let target_ok = match &params.reply_to {
        Some(target) => ObjectId::parse_str(target.as_str()).is_some(),
        None => true,
    };
    if !target_ok {
        return None;
    }
    Some(Comment::new(params.content, uid, username, params.reply_to, reply_to_name))
}

/// An article without comments is shown with a comment count of zero and
/// no comments, whatever window was asked for.
pub proof fn lemma_fetch_of_no_comments(
    store: Store,
    id: ObjectId,
    offset: int,
    limit: int,
    r: Result<ArticleDetailView, BlogError>,
)
    requires
        offset >= 0,
        limit > 0,
        holds_article(store.articles(), id),
        store.article(id).comment_seq().len() == 0,
        is_fetch_outcome(store, id, offset, limit, r),
    ensures
        r matches Ok(view) ==> view.total_comments == 0 && view.comments@.len() == 0,
{
}

/// An article shown with a window that starts at or past its last comment
/// has no comments in the view, and the view still counts them all.
pub proof fn lemma_fetch_past_the_end(
    store: Store,
    id: ObjectId,
    offset: int,
    limit: int,
    r: Result<ArticleDetailView, BlogError>,
)
    requires
        limit > 0,
        holds_article(store.articles(), id),
        store.article(id).comment_seq().len() > 0,
        offset >= store.article(id).comment_seq().len(),
        is_fetch_outcome(store, id, offset, limit, r),
    ensures
        r matches Ok(view) ==> view.comments@.len() == 0 && view.total_comments == store.article(
            id,
        ).comment_seq().len() && view.total_comments > 0,
{
}

} // verus!
