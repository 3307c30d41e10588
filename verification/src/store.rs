//! The document store that the core reads and writes, held in memory:
//! articles with their embedded comments, and users.

use crate::error::BlogError;
use crate::model::{clone_comments, Article, Comment, User, STATUS_PUBLISHED};
use crate::oid::ObjectId;
use crate::pagination::{lemma_page_count_is_ceiling, page_count, window_offset};
use vstd::prelude::*;

verus! {

/// Articles and users, each in the order in which they were inserted.
pub struct Store {
    articles: Vec<Article>,
    users: Vec<User>,
}

/// The `limit` items of `items` that start at `offset`, or as many of them as
/// there are; none when `offset` is at or past the end.
pub open spec fn window_slice<T>(items: Seq<T>, offset: int, limit: int) -> Seq<T>
    recommends
        offset >= 0,
        limit > 0,
{
    let from = if offset < items.len() { offset } else { items.len() as int };
    let to = if offset + limit < items.len() { offset + limit } else { items.len() as int };
    items.subrange(from, to)
}

/// Whether an article with identifier `id` is among `articles`.
pub open spec fn holds_article(articles: Seq<Article>, id: ObjectId) -> bool {
    exists|i: int| 0 <= i < articles.len() && (#[trigger] articles[i]).id == id
}

/// The place of the article with identifier `id` among `articles`.
pub open spec fn article_index(articles: Seq<Article>, id: ObjectId) -> int {
    choose|i: int| 0 <= i < articles.len() && (#[trigger] articles[i]).id == id
}

/// Whether a user with identifier `id` is among `users`.
pub open spec fn holds_user(users: Seq<User>, id: ObjectId) -> bool {
    exists|i: int| 0 <= i < users.len() && (#[trigger] users[i]).id == id
}

/// The place of the user with identifier `id` among `users`.
pub open spec fn user_index(users: Seq<User>, id: ObjectId) -> int {
    choose|i: int| 0 <= i < users.len() && (#[trigger] users[i]).id == id
}

/// Whether `user` signed in through `provider` as the remote account
/// `remote_id`.
pub open spec fn is_external(user: User, provider: Seq<char>, remote_id: i64) -> bool {
    &&& user.auth_type@ == provider
    &&& user.inner matches Some(info)
    &&& info.id == remote_id
}

/// Whether some user among `users` is the remote account `remote_id` of
/// `provider`.
pub open spec fn holds_external(users: Seq<User>, provider: Seq<char>, remote_id: i64) -> bool {
    exists|i: int| 0 <= i < users.len() && is_external(#[trigger] users[i], provider, remote_id)
}

/// Whether `i` is the place of the first user among `users` that is the
/// remote account `remote_id` of `provider`.
pub open spec fn is_first_external(
    users: Seq<User>,
    provider: Seq<char>,
    remote_id: i64,
    i: int,
) -> bool {
    &&& 0 <= i < users.len()
    &&& is_external(users[i], provider, remote_id)
    &&& forall|j: int| 0 <= j < i ==> !is_external(#[trigger] users[j], provider, remote_id)
}

/// Whether `read` is what a windowed read returns for the stored article
/// `stored` written by a user named `author_name`: the stored fields, the
/// comments inside the window, the number of all comments, and the author's
/// name.
pub open spec fn is_windowed_read(
    stored: Article,
    author_name: String,
    offset: int,
    limit: int,
    read: Article,
) -> bool {
    &&& read.id == stored.id
    &&& read.title == stored.title
    &&& read.raw_content == stored.raw_content
    &&& read.tags == stored.tags
    &&& read.author_id == stored.author_id
    &&& read.created_time == stored.created_time
    &&& read.updated_time == stored.updated_time
    &&& read.status == stored.status
    &&& read.comments is Some
    &&& read.comment_seq() == window_slice(stored.comment_seq(), offset, limit)
    &&& read.total_comments == Some(stored.comment_seq().len() as i32)
    &&& read.author_name == Some(author_name)
}

/// Whether `after` is `before` with `comment` appended to its comments and
/// nothing else changed.
pub open spec fn is_appended(before: Article, comment: Comment, after: Article) -> bool {
    &&& after.id == before.id
    &&& after.title == before.title
    &&& after.raw_content == before.raw_content
    &&& after.tags == before.tags
    &&& after.author_id == before.author_id
    &&& after.created_time == before.created_time
    &&& after.updated_time == before.updated_time
    &&& after.status == before.status
    &&& after.comments is Some
    &&& after.comment_seq() == before.comment_seq().push(comment)
    &&& after.total_comments == before.total_comments
    &&& after.author_name == before.author_name
}

/// The article that is stored when `article` is created at `now`: its
/// identifier, text, tags and author, published, without comments.
pub open spec fn stored_form(article: Article, now: i64) -> Article {
    Article {
        id: article.id,
        title: article.title,
        raw_content: article.raw_content,
        tags: article.tags,
        author_id: article.author_id,
        created_time: now,
        updated_time: now,
        status: STATUS_PUBLISHED,
        comments: None,
        total_comments: None,
        author_name: None,
    }
}

/// The later of two instants.
pub open spec fn later_of(a: i64, b: i64) -> i64 {
    if a <= b {
        b
    } else {
        a
    }
}

/// Whether `after` is `before` with its title, text, tags and status replaced
/// by those of `changes`, updated at `now` or, should the clock have gone
/// back, at its creation time, and nothing else changed.
pub open spec fn is_edited(before: Article, changes: Article, now: i64, after: Article) -> bool {
    &&& after.id == before.id
    &&& after.title == changes.title
    &&& after.raw_content == changes.raw_content
    &&& after.tags == changes.tags
    &&& after.author_id == before.author_id
    &&& after.created_time == before.created_time
    &&& after.updated_time == later_of(before.created_time, now)
    &&& after.status == changes.status
    &&& after.comments == before.comments
    &&& after.total_comments == before.total_comments
    &&& after.author_name == before.author_name
}

/// The entry of a listing for the stored article `stored` written by a user
/// named `author_name`: the stored fields, the number of comments and the
/// author's name, without the comments themselves.
pub open spec fn list_entry(stored: Article, author_name: String) -> Article {
    Article {
        id: stored.id,
        title: stored.title,
        raw_content: stored.raw_content,
        tags: stored.tags,
        author_id: stored.author_id,
        created_time: stored.created_time,
        updated_time: stored.updated_time,
        status: stored.status,
        comments: None,
        total_comments: Some(stored.comment_seq().len() as i32),
        author_name: Some(author_name),
    }
}

/// Whether the author of every one of `articles` is among `users`.
pub open spec fn authors_stored(articles: Seq<Article>, users: Seq<User>) -> bool {
    forall|i: int|
        0 <= i < articles.len() ==> holds_user(users, (#[trigger] articles[i]).author_id)
}

/// The listing of `articles`: one entry for each article, in stored order,
/// with the name of its author among `users`.
pub open spec fn listing(articles: Seq<Article>, users: Seq<User>) -> Seq<Article>
    recommends
        authors_stored(articles, users),
{
    Seq::new(
        articles.len(),
        |i: int| list_entry(articles[i], users[user_index(users, articles[i].author_id)].username),
    )
}

/// Changing one of `olds` in place, its identifier kept, gives `news`: the
/// identifiers stay apart, the same identifiers are held, and the changed
/// article is found where it was.
proof fn lemma_replaced_in_place(olds: Seq<Article>, news: Seq<Article>, at: int)
    requires
        0 <= at < olds.len(),
        news.len() == olds.len(),
        news[at].id == olds[at].id,
        forall|i: int| 0 <= i < olds.len() && i != at ==> #[trigger] news[i] == olds[i],
        forall|i: int, j: int|
            0 <= i < j < olds.len() ==> (#[trigger] olds[i]).id != (#[trigger] olds[j]).id,
    ensures
        forall|i: int, j: int|
            0 <= i < j < news.len() ==> (#[trigger] news[i]).id != (#[trigger] news[j]).id,
        forall|id: ObjectId| holds_article(news, id) <==> holds_article(olds, id),
        article_index(olds, olds[at].id) == at,
        article_index(news, olds[at].id) == at,
{
    assert forall|i: int| 0 <= i < news.len() implies (#[trigger] news[i]).id == olds[i].id by {
        if i != at {
            assert(news[i] == olds[i]);
        }
    }
    assert forall|i: int, j: int| 0 <= i < j < news.len() implies (#[trigger] news[i]).id != (
    #[trigger] news[j]).id by {
        assert(olds[i].id == news[i].id);
        assert(olds[j].id == news[j].id);
    }
    assert forall|id: ObjectId| holds_article(news, id) <==> holds_article(olds, id) by {
        if holds_article(news, id) {
            let k = article_index(news, id);
            assert(olds[k].id == id);
        }
        if holds_article(olds, id) {
            let k = article_index(olds, id);
            assert(news[k].id == id);
        }
    }
    let id = olds[at].id;
    let k = article_index(olds, id);
    assert(olds[k].id == id);
    let j = article_index(news, id);
    assert(news[j].id == id);
}

impl Store {
    /// The stored articles, oldest first.
    pub closed spec fn articles(self) -> Seq<Article> {
        self.articles@
    }

    /// The stored users, oldest first.
    pub closed spec fn users(self) -> Seq<User> {
        self.users@
    }

    /// No two articles and no two users share an identifier, every article's
    /// comments can be counted in an `i32`, and no article was updated
    /// before it was created.
    pub open spec fn wf(self) -> bool {
        &&& forall|i: int, j: int|
            0 <= i < j < self.articles().len() ==> (#[trigger] self.articles()[i]).id != (
            #[trigger] self.articles()[j]).id
        &&& forall|i: int, j: int|
            0 <= i < j < self.users().len() ==> (#[trigger] self.users()[i]).id != (
            #[trigger] self.users()[j]).id
        &&& forall|i: int|
            0 <= i < self.articles().len() ==> (#[trigger] self.articles()[i]).comment_seq().len()
                <= i32::MAX
        &&& forall|i: int|
            0 <= i < self.articles().len() ==> (#[trigger] self.articles()[i]).created_time
                <= self.articles()[i].updated_time
    }

    /// The article with identifier `id`.
    pub open spec fn article(self, id: ObjectId) -> Article
        recommends
            holds_article(self.articles(), id),
    {
        self.articles()[article_index(self.articles(), id)]
    }

    /// The user with identifier `id`.
    pub open spec fn user(self, id: ObjectId) -> User
        recommends
            holds_user(self.users(), id),
    {
        self.users()[user_index(self.users(), id)]
    }

    /// Whether `r` is what a windowed read of the article `id` gives: a
    /// missing article is `NotFound`, a missing author a `DanglingReference`,
    /// and otherwise the read holds the article's fields, the comments inside
    /// the window, the number of all its comments and its author's name.
    pub open spec fn is_read_outcome(
        self,
        id: ObjectId,
        offset: int,
        limit: int,
        r: Result<Article, BlogError>,
    ) -> bool {
        if !holds_article(self.articles(), id) {
            r == Err::<Article, BlogError>(BlogError::NotFound)
        } else if !holds_user(self.users(), self.article(id).author_id) {
            r == Err::<Article, BlogError>(BlogError::DanglingReference)
        } else {
            &&& r is Ok
            &&& is_windowed_read(
                self.article(id),
                self.user(self.article(id).author_id).username,
                offset,
                limit,
                r.unwrap(),
            )
        }
    }

    /// Whether `after` is this store once `comment` has been appended to the
    /// article `id`, and `updated` says whether that article was found and
    /// took the comment: the users, the other articles, the article's own
    /// fields and its earlier comments are as before.
    pub open spec fn is_append_outcome(
        self,
        id: ObjectId,
        comment: Comment,
        after: Store,
        updated: bool,
    ) -> bool {
        &&& after.users() == self.users()
        &&& after.articles().len() == self.articles().len()
        &&& updated == (holds_article(self.articles(), id) && self.article(id).comment_seq().len()
            < i32::MAX)
        &&& updated ==> is_appended(self.article(id), comment, after.article(id))
        &&& forall|i: int|
            0 <= i < self.articles().len() && (!updated || i != article_index(self.articles(), id))
                ==> after.articles()[i] == #[trigger] self.articles()[i]
        &&& forall|other: ObjectId|
            holds_article(after.articles(), other) <==> holds_article(self.articles(), other)
    }

    /// Whether `after` is this store once `article` has been inserted at
    /// `now`, and `r` the answer: a taken identifier is refused and nothing
    /// changes; otherwise the stored form of the article comes last.
    pub open spec fn is_insert_article_outcome(
        self,
        article: Article,
        now: i64,
        after: Store,
        r: Result<ObjectId, BlogError>,
    ) -> bool {
        &&& after.users() == self.users()
        &&& if holds_article(self.articles(), article.id) {
            r is Err && r.unwrap_err() is BackendError && after.articles() == self.articles()
        } else {
            r == Ok::<ObjectId, BlogError>(article.id) && after.articles()
                == self.articles().push(stored_form(article, now))
        }
    }

    /// Whether `after` is this store once the fields of `article` have
    /// replaced those of the stored article with its identifier at `now`,
    /// and `matched` says whether there was such an article.
    pub open spec fn is_update_outcome(
        self,
        article: Article,
        now: i64,
        after: Store,
        matched: bool,
    ) -> bool {
        &&& after.users() == self.users()
        &&& after.articles().len() == self.articles().len()
        &&& matched == holds_article(self.articles(), article.id)
        &&& matched ==> is_edited(self.article(article.id), article, now, after.article(article.id))
        &&& forall|i: int|
            0 <= i < self.articles().len() && (!matched || i != article_index(
                self.articles(),
                article.id,
            )) ==> after.articles()[i] == #[trigger] self.articles()[i]
        &&& forall|other: ObjectId|
            holds_article(after.articles(), other) <==> holds_article(self.articles(), other)
    }

    /// Whether `after` is this store once `user` has been inserted, and `r`
    /// the answer: a taken identifier is refused and nothing changes;
    /// otherwise the user comes last.
    pub open spec fn is_insert_user_outcome(
        self,
        user: User,
        after: Store,
        r: Result<ObjectId, BlogError>,
    ) -> bool {
        &&& after.articles() == self.articles()
        &&& if holds_user(self.users(), user.id) {
            r is Err && r.unwrap_err() is BackendError && after.users() == self.users()
        } else {
            r == Ok::<ObjectId, BlogError>(user.id) && after.users() == self.users().push(user)
        }
    }

    /// Whether `r` is the first user that signed in through `provider` as
    /// the remote account `remote_id`, or nothing where there is none.
    pub open spec fn is_external_lookup(
        self,
        provider: Seq<char>,
        remote_id: i64,
        r: Option<User>,
    ) -> bool {
        &&& r is Some <==> holds_external(self.users(), provider, remote_id)
        &&& r matches Some(user) ==> exists|i: int|
            is_first_external(self.users(), provider, remote_id, i) && user == self.users()[i]
    }

    /// An empty store.
    pub fn new() -> (s: Store)
        ensures
            s.articles() == Seq::<Article>::empty(),
            s.users() == Seq::<User>::empty(),
            s.wf(),
    {
        Store { articles: Vec::new(), users: Vec::new() }
    }

    /// The place of the article with identifier `id`, if it is stored.
    fn locate_article(&self, id: ObjectId) -> (r: Option<usize>)
        requires
            self.wf(),
        ensures
            r is Some <==> holds_article(self.articles(), id),
            r matches Some(i) ==> i < self.articles().len() && i == article_index(
                self.articles(),
                id,
            ) && self.articles()[i as int].id == id,
    {
        let mut i: usize = 0;
        while i < self.articles.len()
            invariant
                self.wf(),
                i <= self.articles@.len(),
                forall|j: int| 0 <= j < i ==> (#[trigger] self.articles@[j]).id != id,
            decreases self.articles@.len() - i,
        {
            if self.articles[i].id == id {
                proof {
                    let k = article_index(self.articles(), id);
                    assert(self.articles()[i as int].id == id);
                    assert(self.articles()[k].id == id);
                }
                return Some(i);
            }
            i = i + 1;
        }
        None
    }

    /// The place of the user with identifier `id`, if it is stored.
    fn locate_user(&self, id: ObjectId) -> (r: Option<usize>)
        requires
            self.wf(),
        ensures
            r is Some <==> holds_user(self.users(), id),
            r matches Some(i) ==> i < self.users().len() && i == user_index(self.users(), id)
                && self.users()[i as int].id == id,
    {
        let mut i: usize = 0;
        while i < self.users.len()
            invariant
                self.wf(),
                i <= self.users@.len(),
                forall|j: int| 0 <= j < i ==> (#[trigger] self.users@[j]).id != id,
            decreases self.users@.len() - i,
        {
            if self.users[i].id == id {
                proof {
                    let k = user_index(self.users(), id);
                    assert(self.users()[i as int].id == id);
                    assert(self.users()[k].id == id);
                }
                return Some(i);
            }
            i = i + 1;
        }
        None
    }

    /// Looks up an article by its identifier, with all of its comments.
    pub fn find_article_by_id(&self, id: ObjectId) -> (r: Option<&Article>)
        requires
            self.wf(),
        ensures
            r is Some <==> holds_article(self.articles(), id),
            r matches Some(a) ==> *a == self.article(id),
    {
        match self.locate_article(id) {
            Some(i) => Some(&self.articles[i]),
            None => None,
        }
    }

    /// Looks up a user by its identifier.
    pub fn find_user_by_id(&self, id: ObjectId) -> (r: Option<&User>)
        requires
            self.wf(),
        ensures
            r is Some <==> holds_user(self.users(), id),
            r matches Some(u) ==> *u == self.user(id),
    {
        match self.locate_user(id) {
            Some(i) => Some(&self.users[i]),
            None => None,
        }
    }

    /// Looks up the first user that signed in through `provider` as the
    /// remote account `remote_id`.
    pub fn find_user_by_external_id(&self, provider: &String, remote_id: i64) -> (r: Option<&User>)
        ensures
            r is Some <==> holds_external(self.users(), provider@, remote_id),
            r matches Some(user) ==> self.is_external_lookup(provider@, remote_id, Some(*user)),
    {
        let mut i: usize = 0;
        while i < self.users.len()
            invariant
                i <= self.users@.len(),
                forall|j: int|
                    0 <= j < i ==> !is_external(#[trigger] self.users@[j], provider@, remote_id),
            decreases self.users@.len() - i,
        {
            let user = &self.users[i];
            let found = match &user.inner {
                Some(info) => info.id == remote_id && user.auth_type == *provider,
                None => false,
            };
            if found {
                assert(is_first_external(self.users(), provider@, remote_id, i as int));
                return Some(user);
            }
            i = i + 1;
        }
        None
    }

    /// Appends one comment to the article with identifier `article_id`, and
    /// says whether that article was found and updated. The other articles,
    /// the article's own fields and its earlier comments stay as they are.
    /// An article that already holds `i32::MAX` comments takes no more.
    pub fn append_comment(&mut self, article_id: ObjectId, comment: Comment) -> (updated: bool)
        requires
            old(self).wf(),
        ensures
            final(self).wf(),
            old(self).is_append_outcome(article_id, comment, *final(self), updated),
    {
        let at: usize = match self.locate_article(article_id) {
            Some(i) => i,
            None => { return false; },
        };
        let count: usize = match &self.articles[at].comments {
            Some(list) => list.len(),
            None => 0,
        };
        if count >= i32::MAX as usize {
            return false;
        }
        let slot = &mut self.articles[at];
        match &mut slot.comments {
            Some(list) => { list.push(comment); },
            None => { slot.comments = Some(vec![comment]); },
        }
        proof {
            let olds = old(self).articles();
            let news = self.articles();
            lemma_replaced_in_place(olds, news, at as int);
            assert(news[at as int].comment_seq() =~= olds[at as int].comment_seq().push(comment));
        }
        true
    }

    /// Stores a new article, created at `now` and without comments, and
    /// returns its identifier. An identifier that is already taken is refused
    /// and the store stays as it is.
    pub fn insert_article(&mut self, article: Article, now: i64) -> (r: Result<ObjectId, BlogError>)
        requires
            old(self).wf(),
        ensures
            final(self).wf(),
            old(self).is_insert_article_outcome(article, now, *final(self), r),
    {
        if self.locate_article(article.id).is_some() {
            return Err(BlogError::BackendError("duplicate article id".to_owned()));
        }
        let id = article.id;
        let stored = Article {
            id: article.id,
            title: article.title,
            raw_content: article.raw_content,
            tags: article.tags,
            author_id: article.author_id,
            created_time: now,
            updated_time: now,
            status: STATUS_PUBLISHED,
            comments: None,
            total_comments: None,
            author_name: None,
        };
        self.articles.push(stored);
        proof {
            let olds = old(self).articles();
            let news = self.articles();
            assert forall|i: int, j: int| 0 <= i < j < news.len() implies (#[trigger] news[i]).id
                != (#[trigger] news[j]).id by {
                if j == olds.len() {
                    assert(olds[i].id != id);
                }
            }
            assert forall|i: int| 0 <= i < news.len() implies (#[trigger] news[i]).comment_seq().len()
                <= i32::MAX by {
                if i < olds.len() {
                    assert(news[i] == olds[i]);
                }
            }
        }
        Ok(id)
    }

    /// Replaces the title, text, tags and status of the stored article that
    /// has the identifier of `article` by those of `article`, marks it updated
    /// at `now`, or at its creation time where `now` is earlier, and says
    /// whether such an article was found.
    pub fn update_article_fields(&mut self, article: Article, now: i64) -> (matched: bool)
        requires
            old(self).wf(),
        ensures
            final(self).wf(),
            old(self).is_update_outcome(article, now, *final(self), matched),
    {
        let at: usize = match self.locate_article(article.id) {
            Some(i) => i,
            None => { return false; },
        };
        let slot = &mut self.articles[at];
        slot.title = article.title;
        slot.raw_content = article.raw_content;
        slot.tags = article.tags;
        slot.status = article.status;
        slot.updated_time = if slot.created_time <= now { now } else { slot.created_time };
        proof {
            lemma_replaced_in_place(old(self).articles(), self.articles(), at as int);
        }
        true
    }

    /// Stores a new user and returns its identifier. An identifier that is
    /// already taken is refused and the store stays as it is.
    pub fn insert_user(&mut self, user: User) -> (r: Result<ObjectId, BlogError>)
        requires
            old(self).wf(),
        ensures
            final(self).wf(),
            old(self).is_insert_user_outcome(user, *final(self), r),
    {
        if self.locate_user(user.id).is_some() {
            return Err(BlogError::BackendError("duplicate user id".to_owned()));
        }
        let id = user.id;
        self.users.push(user);
        proof {
            let olds = old(self).users();
            let news = self.users();
            assert forall|i: int, j: int| 0 <= i < j < news.len() implies (#[trigger] news[i]).id
                != (#[trigger] news[j]).id by {
                if j == olds.len() {
                    assert(olds[i].id != id);
                }
            }
        }
        Ok(id)
    }

    /// Lists every stored article, oldest first, each with the number of its
    /// comments and its author's name, and without the comments themselves.
    /// No article is left out: if the author of any stored article is not
    /// stored, the listing fails with a `DanglingReference`.
    pub fn list_articles(&self) -> (r: Result<Vec<Article>, BlogError>)
        requires
            self.wf(),
        ensures
            r is Ok <==> authors_stored(self.articles(), self.users()),
            r matches Ok(list) ==> list@ == listing(self.articles(), self.users()),
            r matches Err(e) ==> e == BlogError::DanglingReference,
    {
        let mut out: Vec<Article> = Vec::new();
        let mut i: usize = 0;
        while i < self.articles.len()
            invariant
                self.wf(),
                i <= self.articles@.len(),
                out@.len() == i,
                forall|k: int|
                    0 <= k < i ==> holds_user(self.users(), (#[trigger] self.articles()[k]).author_id),
                forall|k: int|
                    0 <= k < i ==> #[trigger] out@[k] == listing(self.articles(), self.users())[k],
            decreases self.articles@.len() - i,
        {
            let stored = &self.articles[i];
            let at: usize = match self.locate_user(stored.author_id) {
                Some(at) => at,
                None => {
                    assert(!holds_user(self.users(), self.articles()[i as int].author_id));
                    return Err(BlogError::DanglingReference);
                },
            };
            let total: usize = match &stored.comments {
                Some(list) => list.len(),
                None => 0,
            };
            out.push(
                Article {
                    id: stored.id,
                    title: stored.title.clone(),
                    raw_content: stored.raw_content.clone(),
                    tags: stored.tags.clone(),
                    author_id: stored.author_id,
                    created_time: stored.created_time,
                    updated_time: stored.updated_time,
                    status: stored.status,
                    comments: None,
                    total_comments: Some(total as i32),
                    author_name: Some(self.users[at].username.clone()),
                },
            );
            i = i + 1;
        }
        assert(out@ =~= listing(self.articles(), self.users()));
        Ok(out)
    }

    /// Reads one article together with a window over its comments: the
    /// article's own fields, its author's name, the comments from `offset` on,
    /// at most `limit` of them, and the number of all its comments.
    ///
    /// An article that is not stored is `NotFound`; one whose author is not
    /// stored is a `DanglingReference`.
    pub fn find_article_with_comment_window(&self, id: ObjectId, offset: i64, limit: i32) -> (r: Result<Article, BlogError>)
        requires
            self.wf(),
            offset >= 0,
            limit > 0,
        ensures
            self.is_read_outcome(id, offset as int, limit as int, r),
    {
        let stored = match self.locate_article(id) {
            Some(i) => &self.articles[i],
            None => { return Err(BlogError::NotFound); },
        };
        let author = match self.locate_user(stored.author_id) {
            Some(i) => &self.users[i],
            None => { return Err(BlogError::DanglingReference); },
        };
        let (comments, total) = match &stored.comments {
            Some(list) => {
                let len: usize = list.len();
                let from: usize = if offset < len as i64 { offset as usize } else { len };
                let to: usize = if offset < len as i64 && (limit as i64) < len as i64 - offset {
                    (offset + (limit as i64)) as usize
                } else {
                    len
                };
                (clone_comments(list, from, to), len as i32)
            },
            None => {
                let none: Vec<Comment> = Vec::new();
                assert(none@ =~= window_slice(stored.comment_seq(), offset as int, limit as int));
                (none, 0)
            },
        };
        Ok(
            Article {
                id: stored.id,
                title: stored.title.clone(),
                raw_content: stored.raw_content.clone(),
                tags: stored.tags.clone(),
                author_id: stored.author_id,
                created_time: stored.created_time,
                updated_time: stored.updated_time,
                status: stored.status,
                comments: Some(comments),
                total_comments: Some(total),
                author_name: Some(author.username.clone()),
            },
        )
    }
}

/// A window holds as many items as lie between its offset and the end of
/// the list, and never more than its limit; its items are those of the list
/// from the offset on, in order.
pub proof fn lemma_window_slice_items<T>(items: Seq<T>, offset: int, limit: int)
    requires
        offset >= 0,
        limit > 0,
    ensures
        offset >= items.len() ==> window_slice(items, offset, limit).len() == 0,
        offset < items.len() && offset + limit <= items.len() ==> window_slice(
            items,
            offset,
            limit,
        ).len() == limit,
        offset < items.len() && offset + limit > items.len() ==> window_slice(
            items,
            offset,
            limit,
        ).len() == items.len() - offset,
        forall|k: int|
            0 <= k < window_slice(items, offset, limit).len() ==> #[trigger] window_slice(
                items,
                offset,
                limit,
            )[k] == items[offset + k],
{
}

/// A windowed read of an article without comments reports no comments and
/// returns none, whatever the window.
pub proof fn lemma_read_of_no_comments(
    stored: Article,
    author_name: String,
    offset: int,
    limit: int,
    read: Article,
)
    requires
        offset >= 0,
        limit > 0,
        stored.comment_seq().len() == 0,
        is_windowed_read(stored, author_name, offset, limit, read),
    ensures
        read.total_comments == Some(0i32),
        read.comment_seq().len() == 0,
{
}

/// A windowed read that starts at or past the last comment returns no
/// comments, and still reports how many the article has.
pub proof fn lemma_read_past_the_end(
    stored: Article,
    author_name: String,
    offset: int,
    limit: int,
    read: Article,
)
    requires
        limit > 0,
        0 < stored.comment_seq().len() <= i32::MAX,
        offset >= stored.comment_seq().len(),
        is_windowed_read(stored, author_name, offset, limit, read),
    ensures
        read.comment_seq().len() == 0,
        read.total_comments matches Some(n) && n == stored.comment_seq().len() && n > 0,
{
}

/// Two comments appended one after the other to the same article are both
/// there afterwards, after the earlier comments and in the order of the two
/// appends; the article has exactly two comments more.
pub proof fn lemma_two_appends_keep_both(
    before: Article,
    first: Comment,
    between: Article,
    second: Comment,
    after: Article,
)
    requires
        is_appended(before, first, between),
        is_appended(between, second, after),
    ensures
        after.comment_seq().len() == before.comment_seq().len() + 2,
        after.comment_seq() == before.comment_seq() + seq![first, second],
        after.comment_seq().contains(first),
        after.comment_seq().contains(second),
        forall|k: int|
            0 <= k < before.comment_seq().len() ==> after.comment_seq()[k]
                == #[trigger] before.comment_seq()[k],
{
    let n = before.comment_seq().len() as int;
    assert(after.comment_seq() =~= before.comment_seq() + seq![first, second]);
    assert(after.comment_seq()[n] == first);
    assert(after.comment_seq()[n + 1] == second);
}

/// Every item of a list is on one of the listed pages: the item at
/// place `k` is found on page `k / page_size + 1`, which is among the page
/// numbers displayed, at place `k % page_size` of that page's window.
pub proof fn lemma_every_item_is_on_a_listed_page<T>(items: Seq<T>, page_size: int, k: int)
    requires
        0 < page_size <= i32::MAX,
        items.len() <= i32::MAX,
        0 <= k < items.len(),
    ensures
        1 <= k / page_size + 1 <= page_count(items.len() as int, page_size),
        ({
            let page = (k / page_size + 1) as i32;
            let shown = window_slice(items, window_offset(Some(page), page_size), page_size);
            k % page_size < shown.len() && shown[k % page_size] == items[k]
        }),
{
    let q = k / page_size;
    let r = k % page_size;
    let n = items.len() as int;
    assert(k == q * page_size + r && 0 <= r < page_size && 0 <= q <= k) by (nonlinear_arith)
        requires
            page_size > 0,
            k >= 0,
            q == k / page_size,
            r == k % page_size,
    ;
    lemma_page_count_is_ceiling(n, page_size);
    let count = page_count(n, page_size);
    assert(count > q) by (nonlinear_arith)
        requires
            count * page_size >= n,
            n > k,
            k >= q * page_size,
            page_size > 0,
    ;
    let page = (q + 1) as i32;
    assert(window_offset(Some(page), page_size) == q * page_size);
}

/// An append never removes, changes or reorders a comment: every article
/// that was stored is still stored, its earlier comments open its comments
/// afterwards, and every article but the one appended to is as it was.
pub proof fn lemma_append_keeps_comments(
    before: Store,
    id: ObjectId,
    comment: Comment,
    after: Store,
    updated: bool,
    other: ObjectId,
)
    requires
        before.wf(),
        after.wf(),
        before.is_append_outcome(id, comment, after, updated),
        holds_article(before.articles(), other),
    ensures
        holds_article(after.articles(), other),
        before.article(other).comment_seq().is_prefix_of(after.article(other).comment_seq()),
        !updated || other != id ==> after.article(other) == before.article(other),
{
    let k = article_index(before.articles(), other);
    assert(before.articles()[k].id == other);
    if updated && other == id {
        assert(is_appended(before.article(id), comment, after.article(id)));
    } else {
        if updated {
            let at = article_index(before.articles(), id);
            assert(before.articles()[at].id == id);
            assert(k != at);
        }
        assert(after.articles()[k] == before.articles()[k]);
        let j = article_index(after.articles(), other);
        assert(after.articles()[j].id == other);
        assert(j == k);
    }
}

/// An edit never touches the comments: every article that was stored is
/// still stored with the very comments it had, and every article but the
/// edited one is as it was.
pub proof fn lemma_update_keeps_comments(
    before: Store,
    article: Article,
    now: i64,
    after: Store,
    matched: bool,
    other: ObjectId,
)
    requires
        before.wf(),
        after.wf(),
        before.is_update_outcome(article, now, after, matched),
        holds_article(before.articles(), other),
    ensures
        holds_article(after.articles(), other),
        other != article.id ==> after.article(other) == before.article(other),
        other == article.id ==> after.article(other).comments == before.article(other).comments,
{
    let k = article_index(before.articles(), other);
    assert(before.articles()[k].id == other);
    if other != article.id {
        if matched {
            let at = article_index(before.articles(), article.id);
            assert(before.articles()[at].id == article.id);
            assert(k != at);
        }
        assert(after.articles()[k] == before.articles()[k]);
        let j = article_index(after.articles(), other);
        assert(after.articles()[j].id == other);
        assert(j == k);
    }
}

/// Two comments appended to the same stored article one after the other
/// are both there afterwards, after the earlier comments and in that order:
/// the article has exactly two comments more, and no append undoes the
/// other.
pub proof fn lemma_two_appends_to_one_article(
    start: Store,
    id: ObjectId,
    first: Comment,
    between: Store,
    second: Comment,
    end: Store,
)
    requires
        start.is_append_outcome(id, first, between, true),
        between.is_append_outcome(id, second, end, true),
    ensures
        holds_article(end.articles(), id),
        end.article(id).comment_seq() == start.article(id).comment_seq() + seq![first, second],
        end.article(id).comment_seq().len() == start.article(id).comment_seq().len() + 2,
        end.users() == start.users(),
{
    lemma_two_appends_keep_both(
        start.article(id),
        first,
        between.article(id),
        second,
        end.article(id),
    );
}

/// A listing leaves no article out: where every author is stored, it has
/// one entry for each stored article, in stored order, under the article's
/// identifier, with the number of its comments and its author's name.
pub proof fn lemma_listing_leaves_nothing_out(articles: Seq<Article>, users: Seq<User>)
    requires
        authors_stored(articles, users),
    ensures
        listing(articles, users).len() == articles.len(),
        forall|i: int|
            0 <= i < articles.len() ==> (#[trigger] listing(articles, users)[i]).id
                == articles[i].id && listing(articles, users)[i].total_comments == Some(
                articles[i].comment_seq().len() as i32,
            ) && listing(articles, users)[i].author_name is Some,
{
}

} // verus!
