//! Articles, their embedded comments, and users.

use crate::clock::{clock_millis, earliest_millis};
use crate::oid::{is_object_id_hex, object_id_of, ObjectId};
use vstd::prelude::*;

verus! {

/// Status of a record that is published and visible.
pub const STATUS_PUBLISHED: i16 = 1;

/// Authentication-method tag of users that signed in through Gitee.
pub open spec fn gitee_auth_type() -> Seq<char> {
    "gitee"@
}

/// The profile that the identity provider reports for an account.
#[derive(Debug)]
pub struct UserInfo {
    pub id: i64,
    pub login: String,
    pub name: String,
    pub avatar_url: String,
    pub blog: String,
    pub created_at: String,
    pub email: Option<String>,
}

/// A comment, owned by one article. The author's and the reply target's
/// names are snapshots taken when the comment was written.
#[derive(Debug)]
pub struct Comment {
    pub content: String,
    pub author_id: ObjectId,
    pub author_name: String,
    pub reply_to: Option<ObjectId>,
    pub reply_to_name: Option<String>,
    /// Milliseconds since the Unix epoch.
    pub created_time: i64,
    /// Milliseconds since the Unix epoch.
    pub updated_time: i64,
    pub status: i16,
}

/// An article. As stored, `total_comments` and `author_name` are absent; a
/// read fills them in, and may narrow `comments` to a window.
#[derive(Debug)]
pub struct Article {
    pub id: ObjectId,
    pub title: String,
    pub raw_content: String,
    pub tags: String,
    pub author_id: ObjectId,
    /// Milliseconds since the Unix epoch.
    pub created_time: i64,
    /// Milliseconds since the Unix epoch.
    pub updated_time: i64,
    pub status: i16,
    pub comments: Option<Vec<Comment>>,
    pub total_comments: Option<i32>,
    pub author_name: Option<String>,
}

/// A user. `inner` holds the provider's profile for users that signed in
/// through an identity provider.
#[derive(Debug)]
pub struct User {
    pub id: ObjectId,
    pub username: String,
    pub auth_type: String,
    pub inner: Option<UserInfo>,
    /// Milliseconds since the Unix epoch.
    pub created_time: i64,
    /// Milliseconds since the Unix epoch.
    pub updated_time: i64,
    pub status: i16,
}

/// Copies an optional string.
pub fn clone_opt_string(s: &Option<String>) -> (r: Option<String>)
    ensures
        r == *s,
{
    match s {
        Some(text) => Some(text.clone()),
        None => None,
    }
}

impl Clone for UserInfo {
    fn clone(&self) -> (r: Self)
        ensures
            r == *self,
    {
        UserInfo {
            id: self.id,
            login: self.login.clone(),
            name: self.name.clone(),
            avatar_url: self.avatar_url.clone(),
            blog: self.blog.clone(),
            created_at: self.created_at.clone(),
            email: clone_opt_string(&self.email),
        }
    }
}

impl Clone for Comment {
    fn clone(&self) -> (r: Self)
        ensures
            r == *self,
    {
        Comment {
            content: self.content.clone(),
            author_id: self.author_id,
            author_name: self.author_name.clone(),
            reply_to: self.reply_to,
            reply_to_name: clone_opt_string(&self.reply_to_name),
            created_time: self.created_time,
            updated_time: self.updated_time,
            status: self.status,
        }
    }
}

/// Copies the comments from `from` up to, not including, `to`.
pub fn clone_comments(comments: &Vec<Comment>, from: usize, to: usize) -> (r: Vec<Comment>)
    requires
        from <= to <= comments@.len(),
    ensures
        r@ == comments@.subrange(from as int, to as int),
{
    let mut out: Vec<Comment> = Vec::new();
    let mut i: usize = from;
    while i < to
        invariant
            from <= i <= to <= comments@.len(),
            out@ == comments@.subrange(from as int, i as int),
        decreases to - i,
    {
        out.push(comments[i].clone());
        i = i + 1;
        assert(out@ =~= comments@.subrange(from as int, i as int));
    }
    out
}

impl Article {
    /// The comments that the article carries; none when the list is absent.
    pub open spec fn comment_seq(self) -> Seq<Comment> {
        match self.comments {
            Some(list) => list@,
            None => Seq::empty(),
        }
    }

    /// Whether two articles hold the same fields and the same comments in the
    /// same order.
    pub open spec fn agrees_with(self, other: Article) -> bool {
        &&& self.id == other.id
        &&& self.title == other.title
        &&& self.raw_content == other.raw_content
        &&& self.tags == other.tags
        &&& self.author_id == other.author_id
        &&& self.created_time == other.created_time
        &&& self.updated_time == other.updated_time
        &&& self.status == other.status
        &&& self.comments is Some <==> other.comments is Some
        &&& self.comment_seq() == other.comment_seq()
        &&& self.total_comments == other.total_comments
        &&& self.author_name == other.author_name
    }
}

impl Clone for Article {
    fn clone(&self) -> (r: Self)
        ensures
            r.agrees_with(*self),
    {
        let comments = match &self.comments {
            Some(list) => {
                let copy = clone_comments(list, 0, list.len());
                assert(copy@ =~= list@);
                Some(copy)
            },
            None => None,
        };
        Article {
            id: self.id,
            title: self.title.clone(),
            raw_content: self.raw_content.clone(),
            tags: self.tags.clone(),
            author_id: self.author_id,
            created_time: self.created_time,
            updated_time: self.updated_time,
            status: self.status,
            comments,
            total_comments: self.total_comments,
            author_name: clone_opt_string(&self.author_name),
        }
    }
}

impl Clone for User {
    fn clone(&self) -> (r: Self)
        ensures
            r == *self,
    {
        let inner = match &self.inner {
            Some(info) => Some(info.clone()),
            None => None,
        };
        User {
            id: self.id,
            username: self.username.clone(),
            auth_type: self.auth_type.clone(),
            inner,
            created_time: self.created_time,
            updated_time: self.updated_time,
            status: self.status,
        }
    }
}

impl Comment {
    /// A published comment written at `now` by the author `author_id`.
    pub fn written_at(
        content: String,
        author_id: ObjectId,
        author_name: String,
        reply_to: Option<ObjectId>,
        reply_to_name: Option<String>,
        now: i64,
    ) -> (c: Comment)
        ensures
            c == (Comment {
                content,
                author_id,
                author_name,
                reply_to,
                reply_to_name,
                created_time: now,
                updated_time: now,
                status: STATUS_PUBLISHED,
            }),
    {
        Comment {
            content,
            author_id,
            author_name,
            reply_to,
            reply_to_name,
            created_time: now,
            updated_time: now,
            status: STATUS_PUBLISHED,
        }
    }

    /// A published comment written now. The author and the reply target are
    /// given in their text form, which must be valid.
    pub fn new(
        content: String,
        author_id: String,
        author_name: String,
        reply_to: Option<String>,
        reply_to_name: Option<String>,
    ) -> (c: Comment)
        requires
            is_object_id_hex(author_id@),
            reply_to matches Some(target) ==> is_object_id_hex(target@),
        ensures
            c.content == content,
            c.author_id == object_id_of(author_id@),
            c.author_name == author_name,
            reply_to is None <==> c.reply_to is None,
            reply_to matches Some(target) ==> c.reply_to == Some(object_id_of(target@)),
            c.reply_to_name == reply_to_name,
            c.created_time == c.updated_time,
            c.status == STATUS_PUBLISHED,
    {
        let author = ObjectId::parse_str(author_id.as_str()).unwrap();
        let target = match &reply_to {
            Some(text) => Some(ObjectId::parse_str(text.as_str()).unwrap()),
            None => None,
        };
        Comment::written_at(content, author, author_name, target, reply_to_name, clock_millis())
    }
}

impl Default for Article {
    /// An empty, published article with a new identifier, created now.
    fn default() -> (a: Self)
        ensures
            a.title@ == Seq::<char>::empty(),
            a.raw_content@ == Seq::<char>::empty(),
            a.tags@ == Seq::<char>::empty(),
            a.created_time == a.updated_time,
            a.status == STATUS_PUBLISHED,
            a.comments is None,
            a.total_comments is None,
            a.author_name is None,
    {
        let now: i64 = clock_millis();
        Article {
            id: ObjectId::generate(),
            title: String::new(),
            raw_content: String::new(),
            tags: String::new(),
            author_id: ObjectId::generate(),
            created_time: now,
            updated_time: now,
            status: STATUS_PUBLISHED,
            comments: None,
            total_comments: None,
            author_name: None,
        }
    }
}

impl Default for User {
    /// A nameless, active user with a new identifier, created now and never
    /// updated.
    fn default() -> (u: Self)
        ensures
            u.username@ == Seq::<char>::empty(),
            u.auth_type@ == Seq::<char>::empty(),
            u.inner is None,
            u.status == STATUS_PUBLISHED,
    {
        User {
            id: ObjectId::generate(),
            username: String::new(),
            auth_type: String::new(),
            inner: None,
            created_time: clock_millis(),
            updated_time: earliest_millis(),
            status: STATUS_PUBLISHED,
        }
    }
}

} // verus!
