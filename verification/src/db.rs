//! The storage operations of the service, on a `Store`: identifiers come as
//! text, page requests are turned into windows, and times are read from the
//! clock.

use crate::clock::clock_millis;
use crate::error::BlogError;
use crate::model::{gitee_auth_type, Article, Comment, User, UserInfo};
use crate::oid::{is_object_id_hex, object_id_of, ObjectId};
use crate::pagination::{window, window_offset};
use crate::signin::{is_new_gitee_user, new_gitee_user};
use crate::store::{
    article_index, authors_stored, holds_article, holds_external, holds_user, is_edited, listing,
    stored_form, Store,
};
use vstd::prelude::*;

verus! {

/// The page size of a read: the one asked for, and one where none is.
pub open spec fn page_size_or_one(comment_page_size: Option<i32>) -> int {
    match comment_page_size {
        Some(size) => size as int,
        None => 1,
    }
}

/// Stores a new article, created now, and returns its identifier as text.
pub fn create_article(article: Article, store: &mut Store) -> (r: Result<String, BlogError>)
    requires
        old(store).wf(),
    ensures
        final(store).wf(),
        final(store).users() == old(store).users(),
        r is Ok <==> !holds_article(old(store).articles(), article.id),
        r matches Ok(text) ==> text@ == article.id.hex(),
        r is Ok ==> exists|now: i64|
            final(store).articles() == old(store).articles().push(
                #[trigger] stored_form(article, now),
            ),
        r is Err ==> r.unwrap_err() is BackendError,
        r is Err ==> final(store).articles() == old(store).articles(),
{
    let now: i64 = clock_millis();
    let r = store.insert_article(article, now);
    proof {
        if r is Ok {
            assert(store.articles() == old(store).articles().push(stored_form(article, now)));
        }
    }
    match r {
        Ok(id) => Ok(id.to_hex()),
        Err(e) => Err(e),
    }
}

/// Replaces the title, text, tags and status of the stored article that has
/// the identifier of `article`, marks it updated now, and says whether such
/// an article was found.
pub fn update_article(article: Article, store: &mut Store) -> (r: Result<bool, BlogError>)
    requires
        old(store).wf(),
    ensures
        final(store).wf(),
        final(store).users() == old(store).users(),
        final(store).articles().len() == old(store).articles().len(),
        r == Ok::<bool, BlogError>(holds_article(old(store).articles(), article.id)),
        holds_article(old(store).articles(), article.id) ==> exists|now: i64| #[trigger]
            is_edited(
                old(store).article(article.id),
                article,
                now,
                final(store).article(article.id),
            ),
        forall|i: int|
            0 <= i < old(store).articles().len() && (!holds_article(
                old(store).articles(),
                article.id,
            ) || i != article_index(old(store).articles(), article.id))
                ==> final(store).articles()[i] == #[trigger] old(store).articles()[i],
{
    let now: i64 = clock_millis();
    let matched = store.update_article_fields(article, now);
    proof {
        if matched {
            assert(is_edited(
                old(store).article(article.id),
                article,
                now,
                store.article(article.id),
            ));
        }
    }
    Ok(matched)
}

/// Appends one comment to the article whose identifier `article_id` writes,
/// and says whether that article was found and updated. Text that writes no
/// identifier names no article.
pub fn append_comment(article_id: String, comment: Comment, store: &mut Store) -> (r: Result<bool, BlogError>)
    requires
        old(store).wf(),
    ensures
        final(store).wf(),
        r is Ok,
        !is_object_id_hex(article_id@) ==> r == Ok::<bool, BlogError>(false),
        !is_object_id_hex(article_id@) ==> final(store).articles() == old(store).articles(),
        !is_object_id_hex(article_id@) ==> final(store).users() == old(store).users(),
        is_object_id_hex(article_id@) ==> old(store).is_append_outcome(
            object_id_of(article_id@),
            comment,
            *final(store),
            r.unwrap(),
        ),
{
    match ObjectId::parse_str(article_id.as_str()) {
        Some(id) => Ok(store.append_comment(id, comment)),
        None => Ok(false),
    }
}

/// Reads the article whose identifier `article_id` writes, with one page of
/// its comments, the number of all its comments and its author's name.
///
/// Pages are counted from one; a missing page, and any page at or below
/// zero, is the first. A missing page size is one. Text that writes no
/// identifier names no article.
pub fn get_article(
    article_id: String,
    comment_page_size: Option<i32>,
    comment_page: Option<i32>,
    store: &Store,
) -> (r: Result<Article, BlogError>)
    requires
        store.wf(),
        comment_page_size matches Some(size) ==> size > 0,
    ensures
        !is_object_id_hex(article_id@) ==> r == Err::<Article, BlogError>(BlogError::NotFound),
        is_object_id_hex(article_id@) ==> store.is_read_outcome(
            object_id_of(article_id@),
            window_offset(comment_page, page_size_or_one(comment_page_size)),
            page_size_or_one(comment_page_size),
            r,
        ),
{
    let size: i32 = match comment_page_size {
        Some(size) => size,
        None => 1,
    };
    let id = match ObjectId::parse_str(article_id.as_str()) {
        Some(id) => id,
        None => { return Err(BlogError::NotFound); },
    };
    let w = window(comment_page, size);
    store.find_article_with_comment_window(id, w.offset, w.limit)
}

/// Lists every stored article, oldest first, each with the number of its
/// comments and its author's name. No article is left out: if the author of
/// any stored article is not stored, the listing fails with a
/// `DanglingReference`.
pub fn list_article(store: &Store) -> (r: Result<Vec<Article>, BlogError>)
    requires
        store.wf(),
    ensures
        r is Ok <==> authors_stored(store.articles(), store.users()),
        r matches Ok(list) ==> list@ == listing(store.articles(), store.users()),
        r matches Err(e) ==> e == BlogError::DanglingReference,
{
    store.list_articles()
}

/// Looks up the user that signed in through Gitee as the remote account
/// `id`. That there is none is `NotFound`.
pub fn find_user_by_giteeid(store: &Store, id: i64) -> (r: Result<User, BlogError>)
    ensures
        r is Ok <==> holds_external(store.users(), gitee_auth_type(), id),
        r matches Ok(user) ==> store.is_external_lookup(gitee_auth_type(), id, Some(user)),
        r matches Err(e) ==> e == BlogError::NotFound,
{
    let provider = "gitee".to_owned();
    match store.find_user_by_external_id(&provider, id) {
        Some(user) => Ok(user.clone()),
        None => Err(BlogError::NotFound),
    }
}

/// Looks up the user whose identifier `id` writes. That there is none, or
/// that the text writes no identifier, is `NotFound`.
pub fn find_user_by_id(id: &str, store: &Store) -> (r: Result<User, BlogError>)
    requires
        store.wf(),
    ensures
        r is Ok <==> is_object_id_hex(id@) && holds_user(store.users(), object_id_of(id@)),
        r matches Ok(user) ==> user == store.user(object_id_of(id@)),
        r matches Err(e) ==> e == BlogError::NotFound,
{
    let id = match ObjectId::parse_str(id) {
        Some(id) => id,
        None => { return Err(BlogError::NotFound); },
    };
    match store.find_user_by_id(id) {
        Some(user) => Ok(user.clone()),
        None => Err(BlogError::NotFound),
    }
}

/// Stores a new user for the remote profile `gitee_user`, created now under
/// a new identifier, and returns the identifier as text.
pub fn create_giteeuser(store: &mut Store, gitee_user: UserInfo) -> (r: Result<String, BlogError>)
    requires
        old(store).wf(),
    ensures
        final(store).wf(),
        final(store).articles() == old(store).articles(),
        old(store).users().len() == 0 ==> r is Ok,
        r is Err ==> r.unwrap_err() is BackendError,
        r is Err ==> final(store).users() == old(store).users(),
        r matches Ok(text) ==> exists|id: ObjectId, now: i64, user: User|
            text@ == id.hex() && #[trigger] is_new_gitee_user(gitee_user, id, now, user)
                && !holds_user(old(store).users(), id)
                && final(store).users() == old(store).users().push(user),
{
    let id = ObjectId::generate();
    let now: i64 = clock_millis();
    let user = new_gitee_user(gitee_user, id, now);
    match store.insert_user(user) {
        Ok(stored) => {
            let text = stored.to_hex();
            proof {
                assert(text@ == id.hex() && is_new_gitee_user(gitee_user, id, now, user)
                    && !holds_user(old(store).users(), id)
                    && store.users() == old(store).users().push(user));
            }
            Ok(text)
        },
        Err(e) => Err(e),
    }
}

} // verus!
