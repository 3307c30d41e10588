//! What the presentation layer is handed: articles and comments with their
//! identifiers and times written out, and the page numbers to display.

use crate::error::BlogError;
use crate::model::{clone_opt_string, Article, Comment};
use crate::pagination::{comment_page_size, page_count, page_numbers, COMMENT_PAGE_SIZE};
use crate::store::window_slice;
use std::fmt::Write;
use vstd::prelude::*;

verus! {

/// Offset from UTC, in seconds, of the zone in which times are shown.
pub const DISPLAY_OFFSET_SECONDS: i32 = 28800;

/// The pattern in which times are shown: date and time of day to the second.
pub open spec fn display_pattern() -> Seq<char> {
    "%Y-%m-%d %H:%M:%S"@
}

/// The text that chrono writes for the instant `millis` milliseconds after
/// the Unix epoch, seen `offset_seconds` east of UTC, under the strftime
/// pattern `pattern`; none where chrono cannot hold the instant or the
/// offset, or cannot read the pattern.
pub uninterp spec fn formatted_time(millis: i64, offset_seconds: i32, pattern: Seq<char>) -> Option<Seq<char>>;

/// The text shown for the instant `millis`.
pub open spec fn display_time(millis: i64) -> Option<Seq<char>> {
    formatted_time(millis, DISPLAY_OFFSET_SECONDS, display_pattern())
}

/// Calls `chrono::DateTime::format` and writes what it hands back into a
/// string. The instant is made with `DateTime::from_timestamp_millis` and
/// moved into the zone of `FixedOffset::east_opt` by `with_timezone`. The
/// text depends on the three arguments alone: no locale and no system time
/// zone enters. The call yields nothing where `from_timestamp_millis` or
/// `east_opt` return `None`, or where writing fails, which it does on a
/// pattern that chrono cannot read.
#[verifier::external_body]
fn format_time(millis: i64, offset_seconds: i32, pattern: &str) -> (r: Option<String>)
    ensures
        r is Some <==> formatted_time(millis, offset_seconds, pattern@) is Some,
        r matches Some(text) ==> formatted_time(millis, offset_seconds, pattern@) == Some(text@),
{
    let utc = chrono::DateTime::from_timestamp_millis(millis)?;
    let zone = chrono::FixedOffset::east_opt(offset_seconds)?;
    let mut text = String::new();
    write!(text, "{}", utc.with_timezone(&zone).format(pattern)).ok()?;
    Some(text)
}

/// Writes the instant `millis` as it is shown to readers.
pub fn time_text(millis: i64) -> (r: Option<String>)
    ensures
        r is Some <==> display_time(millis) is Some,
        r matches Some(text) ==> display_time(millis) == Some(text@),
{
    format_time(millis, DISPLAY_OFFSET_SECONDS, "%Y-%m-%d %H:%M:%S")
}

/// A comment as it is shown.
#[derive(Debug)]
pub struct CommentView {
    pub content: String,
    pub author_id: String,
    pub author_name: String,
    pub reply_to: Option<String>,
    pub reply_to_name: Option<String>,
    pub created_time: String,
    pub status: i16,
}

/// An article as it is shown, with the page numbers of its comments.
#[derive(Debug)]
pub struct ArticleDetailView {
    pub id: String,
    pub title: String,
    pub raw_content: String,
    pub tags: String,
    pub author_id: String,
    pub author_name: String,
    pub created_time: String,
    pub status: i16,
    pub comments: Vec<CommentView>,
    pub total_comments: i32,
    pub comment_page_nums: Vec<i32>,
}

/// Whether `view` shows `comment` with its creation time written as
/// `created_time`.
pub open spec fn is_comment_view(comment: Comment, created_time: Seq<char>, view: CommentView) -> bool {
    &&& view.content == comment.content
    &&& view.author_id@ == comment.author_id.hex()
    &&& view.author_name == comment.author_name
    &&& view.reply_to is Some <==> comment.reply_to is Some
    &&& comment.reply_to matches Some(target) ==> view.reply_to.unwrap()@ == target.hex()
    &&& view.reply_to_name == comment.reply_to_name
    &&& view.created_time@ == created_time
    &&& view.status == comment.status
}

/// Whether `view` shows `comment`, its creation time as readers see it.
pub open spec fn shows_comment(comment: Comment, view: CommentView) -> bool {
    &&& display_time(comment.created_time) matches Some(text)
    &&& is_comment_view(comment, text, view)
}

/// Whether every one of `comments` has a creation time that can be shown.
pub open spec fn comments_showable(comments: Seq<Comment>) -> bool {
    forall|i: int| 0 <= i < comments.len() ==> display_time((#[trigger] comments[i]).created_time) is Some
}

/// Whether the read `article` has all that its view shows: the author's
/// name, the number of comments, and times that can be written.
pub open spec fn is_showable(article: Article) -> bool {
    &&& article.author_name is Some
    &&& article.total_comments is Some
    &&& display_time(article.created_time) is Some
    &&& comments_showable(article.comment_seq())
}

/// Whether `view` is the view of the read `article` with its creation time
/// written as `created_time` and its comments shown as `comments`: the
/// article's fields, its identifiers in their text form, its author's name,
/// its comment count and the page numbers for that count.
pub open spec fn is_article_view(
    article: Article,
    created_time: String,
    comments: Vec<CommentView>,
    view: ArticleDetailView,
) -> bool {
    &&& view.id@ == article.id.hex()
    &&& view.title == article.title
    &&& view.raw_content == article.raw_content
    &&& view.tags == article.tags
    &&& view.author_id@ == article.author_id.hex()
    &&& Some(view.author_name) == article.author_name
    &&& view.created_time == created_time
    &&& view.status == article.status
    &&& view.comments == comments
    &&& Some(view.total_comments) == article.total_comments
    &&& view.comment_page_nums@.len() == page_count(
        view.total_comments as int,
        COMMENT_PAGE_SIZE as int,
    )
    &&& forall|i: int|
        0 <= i < view.comment_page_nums@.len() ==> #[trigger] view.comment_page_nums@[i] == i + 1
}

/// Whether `view` shows the read `article`.
pub open spec fn shows_article(article: Article, view: ArticleDetailView) -> bool {
    &&& view.id@ == article.id.hex()
    &&& view.title == article.title
    &&& view.raw_content == article.raw_content
    &&& view.tags == article.tags
    &&& view.author_id@ == article.author_id.hex()
    &&& Some(view.author_name) == article.author_name
    &&& Some(view.created_time@) == display_time(article.created_time)
    &&& view.status == article.status
    &&& view.comments@.len() == article.comment_seq().len()
    &&& forall|i: int|
        0 <= i < view.comments@.len() ==> shows_comment(
            article.comment_seq()[i],
            #[trigger] view.comments@[i],
        )
    &&& Some(view.total_comments) == article.total_comments
    &&& view.comment_page_nums@.len() == page_count(
        view.total_comments as int,
        COMMENT_PAGE_SIZE as int,
    )
    &&& forall|i: int|
        0 <= i < view.comment_page_nums@.len() ==> #[trigger] view.comment_page_nums@[i] == i + 1
}

/// Whether `view` shows the stored article `stored`, written by a user named
/// `author_name`, with the comments of one window.
pub open spec fn shows_window(
    stored: Article,
    author_name: String,
    offset: int,
    limit: int,
    view: ArticleDetailView,
) -> bool {
    let shown = window_slice(stored.comment_seq(), offset, limit);
    &&& view.id@ == stored.id.hex()
    &&& view.title == stored.title
    &&& view.raw_content == stored.raw_content
    &&& view.tags == stored.tags
    &&& view.author_id@ == stored.author_id.hex()
    &&& view.author_name == author_name
    &&& Some(view.created_time@) == display_time(stored.created_time)
    &&& view.status == stored.status
    &&& view.comments@.len() == shown.len()
    &&& forall|i: int|
        0 <= i < view.comments@.len() ==> shows_comment(shown[i], #[trigger] view.comments@[i])
    &&& view.total_comments == stored.comment_seq().len()
    &&& view.comment_page_nums@.len() == page_count(
        view.total_comments as int,
        COMMENT_PAGE_SIZE as int,
    )
    &&& forall|i: int|
        0 <= i < view.comment_page_nums@.len() ==> #[trigger] view.comment_page_nums@[i] == i + 1
}

/// Whether the stored article `stored` can be shown with the comments of one
/// window: its creation time and theirs can be written.
pub open spec fn window_showable(stored: Article, offset: int, limit: int) -> bool {
    &&& display_time(stored.created_time) is Some
    &&& comments_showable(window_slice(stored.comment_seq(), offset, limit))
}

impl CommentView {
    /// The view of `comment` whose creation time reads `created_time`.
    pub fn with_time(comment: &Comment, created_time: String) -> (view: CommentView)
        ensures
            is_comment_view(*comment, created_time@, view),
    {
        let reply_to = match &comment.reply_to {
            Some(target) => Some(target.to_hex()),
            None => None,
        };
        CommentView {
            content: comment.content.clone(),
            author_id: comment.author_id.to_hex(),
            author_name: comment.author_name.clone(),
            reply_to,
            reply_to_name: clone_opt_string(&comment.reply_to_name),
            created_time,
            status: comment.status,
        }
    }

    /// The view of `comment`; none when its creation time cannot be shown.
    pub fn from_comment(comment: &Comment) -> (r: Option<CommentView>)
        ensures
            r is Some <==> display_time(comment.created_time) is Some,
            r matches Some(view) ==> shows_comment(*comment, view),
    {
        match time_text(comment.created_time) {
            Some(text) => Some(CommentView::with_time(comment, text)),
            None => None,
        }
    }
}

/// The views of `comments`, in order; none when the creation time of one of
/// them cannot be shown.
pub fn comment_views(comments: &Vec<Comment>) -> (r: Option<Vec<CommentView>>)
    ensures
        r is Some <==> comments_showable(comments@),
        r matches Some(views) ==> views@.len() == comments@.len() && forall|i: int|
            0 <= i < views@.len() ==> shows_comment(comments@[i], #[trigger] views@[i]),
{
    let mut views: Vec<CommentView> = Vec::new();
    let mut i: usize = 0;
    while i < comments.len()
        invariant
            i <= comments@.len(),
            views@.len() == i,
            forall|k: int| 0 <= k < i ==> display_time((#[trigger] comments@[k]).created_time) is Some,
            forall|k: int| 0 <= k < i ==> shows_comment(comments@[k], #[trigger] views@[k]),
        decreases comments@.len() - i,
    {
        match CommentView::from_comment(&comments[i]) {
            Some(view) => { views.push(view); },
            None => {
                assert(display_time(comments@[i as int].created_time) is None);
                return None;
            },
        }
        i = i + 1;
    }
    Some(views)
}

impl ArticleDetailView {
    /// The view of the read `article` whose creation time reads
    /// `created_time` and whose comments are shown as `comments`, with the
    /// page numbers for its comment count. A read without the author's name
    /// is a dangling reference; one without the comment count is a malformed
    /// answer of storage.
    pub fn with_time(article: &Article, created_time: String, comments: Vec<CommentView>) -> (r: Result<ArticleDetailView, BlogError>)
        ensures
            article.author_name is None ==> r == Err::<ArticleDetailView, BlogError>(
                BlogError::DanglingReference,
            ),
            article.author_name is Some && article.total_comments is None ==> r is Err
                && r.unwrap_err() is BackendError,
            article.author_name is Some && article.total_comments is Some ==> r is Ok
                && is_article_view(*article, created_time, comments, r.unwrap()),
    {
        let author_name = match &article.author_name {
            Some(name) => name.clone(),
            None => { return Err(BlogError::DanglingReference); },
        };
        let total_comments = match article.total_comments {
            Some(total) => total,
            None => { return Err(BlogError::BackendError("comment count is missing".to_owned())); },
        };
        let comment_page_nums = page_numbers(total_comments, comment_page_size());
        Ok(
            ArticleDetailView {
                id: article.id.to_hex(),
                title: article.title.clone(),
                raw_content: article.raw_content.clone(),
                tags: article.tags.clone(),
                author_id: article.author_id.to_hex(),
                author_name,
                created_time,
                status: article.status,
                comments,
                total_comments,
                comment_page_nums,
            },
        )
    }

    /// The view of the read `article`, with the page numbers for its comment
    /// count. A read without the author's name is a dangling reference; one
    /// without the comment count, or with a time that cannot be written, is
    /// a malformed answer of storage.
    pub fn of(article: &Article) -> (r: Result<ArticleDetailView, BlogError>)
        ensures
            r is Ok <==> is_showable(*article),
            r matches Ok(view) ==> shows_article(*article, view),
            article.author_name is None ==> r == Err::<ArticleDetailView, BlogError>(
                BlogError::DanglingReference,
            ),
            article.author_name is Some && !is_showable(*article) ==> r is Err && r.unwrap_err()
                is BackendError,
    {
        let created_time = time_text(article.created_time);
        let comments = match &article.comments {
            Some(list) => comment_views(list),
            None => Some(Vec::new()),
        };
        match (created_time, comments) {
            (Some(text), Some(views)) => ArticleDetailView::with_time(article, text, views),
            _ => {
                if article.author_name.is_none() {
                    Err(BlogError::DanglingReference)
                } else {
                    Err(BlogError::BackendError("time out of range".to_owned()))
                }
            },
        }
    }

    /// The view of the read `article`; see `of`.
    pub fn from_article(article: Article) -> (r: Result<ArticleDetailView, BlogError>)
        ensures
            r is Ok <==> is_showable(article),
            r matches Ok(view) ==> shows_article(article, view),
            article.author_name is None ==> r == Err::<ArticleDetailView, BlogError>(
                BlogError::DanglingReference,
            ),
            article.author_name is Some && !is_showable(article) ==> r is Err && r.unwrap_err()
                is BackendError,
    {
        ArticleDetailView::of(&article)
    }
}

} // verus!
