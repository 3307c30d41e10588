//! Sign-in through the Gitee identity provider: the requests sent to the
//! provider, the resolution of a remote profile to a local user, and what
//! the session is to hold.

use crate::error::BlogError;
use crate::model::{gitee_auth_type, User, UserInfo, STATUS_PUBLISHED};
use crate::oid::ObjectId;
use crate::store::{holds_external, holds_user, is_external, is_first_external, Store};
use vstd::prelude::*;
use vstd::string::*;

verus! {

/// Query of the callback that the provider redirects the browser to.
#[derive(Debug)]
pub struct GiteeSignin {
    pub code: String,
}

/// The fields of the request that exchanges an authorization code for an
/// access token.
#[derive(Debug)]
pub struct TokenRequest {
    pub grant_type: String,
    pub code: String,
    pub client_id: String,
    pub client_secret: String,
    pub redirect_uri: String,
}

/// What a completed sign-in writes into the session.
#[derive(Debug)]
pub struct SessionWrite {
    pub user_id: ObjectId,
    pub username: String,
}

/// Where the token exchange is posted.
pub fn token_endpoint() -> (uri: String)
    ensures
        uri@ == "https://gitee.com/oauth/token"@,
{
    "https://gitee.com/oauth/token".to_owned()
}

/// The page of the provider on which the user grants access.
pub fn authorize_uri(client_id: &str, redirect_uri: &str) -> (uri: String)
    ensures
        uri@ == "https://gitee.com/oauth/authorize?client_id="@ + client_id@ + "&redirect_uri="@
            + redirect_uri@ + "&response_type=code"@,
{
    let mut uri = "https://gitee.com/oauth/authorize?client_id=".to_owned();
    uri.append(client_id);
    uri.append("&redirect_uri=");
    uri.append(redirect_uri);
    uri.append("&response_type=code");
    uri
}

/// Where the profile of the account behind `access_token` is read.
pub fn profile_uri(access_token: &str) -> (uri: String)
    ensures
        uri@ == "https://gitee.com/api/v5/user?access_token="@ + access_token@,
{
    let mut uri = "https://gitee.com/api/v5/user?access_token=".to_owned();
    uri.append(access_token);
    uri
}

/// The request that exchanges `code` for an access token.
pub fn token_request(
    code: String,
    client_id: String,
    client_secret: String,
    redirect_uri: String,
) -> (request: TokenRequest)
    ensures
        request.grant_type@ == "authorization_code"@,
        request.code == code,
        request.client_id == client_id,
        request.client_secret == client_secret,
        request.redirect_uri == redirect_uri,
{
    TokenRequest {
        grant_type: "authorization_code".to_owned(),
        code,
        client_id,
        client_secret,
        redirect_uri,
    }
}

/// Reads the provider's answer to a token exchange: the access token when
/// the status is 200 and the body held one, and otherwise a provider error
/// that carries the body as it came.
pub fn read_token_reply(status: u16, access_token: Option<String>, body: String) -> (r: Result<String, BlogError>)
    ensures
        status == 200 && access_token is Some ==> r == Ok::<String, BlogError>(
            access_token.unwrap(),
        ),
        status != 200 || access_token is None ==> r == Err::<String, BlogError>(
            BlogError::ProviderError(body),
        ),
{
    if status == 200 {
        match access_token {
            Some(token) => Ok(token),
            None => Err(BlogError::ProviderError(body)),
        }
    } else {
        Err(BlogError::ProviderError(body))
    }
}

/// Whether `user` is the local user made for the remote `profile` with
/// identifier `id` at `now`: named as the profile is, tagged with the
/// provider, holding the profile, active.
pub open spec fn is_new_gitee_user(profile: UserInfo, id: ObjectId, now: i64, user: User) -> bool {
    &&& user.id == id
    &&& user.username == profile.name
    &&& user.auth_type@ == gitee_auth_type()
    &&& user.inner == Some(profile)
    &&& user.created_time == now
    &&& user.updated_time == now
    &&& user.status == STATUS_PUBLISHED
}

/// The local user for a remote profile that signs in for the first time.
pub fn new_gitee_user(profile: UserInfo, id: ObjectId, now: i64) -> (user: User)
    ensures
        is_new_gitee_user(profile, id, now, user),
{
    User {
        id,
        username: profile.name.clone(),
        auth_type: "gitee".to_owned(),
        inner: Some(profile),
        created_time: now,
        updated_time: now,
        status: STATUS_PUBLISHED,
    }
}

/// What the session holds once `user` has signed in: the user's identifier
/// and name.
pub fn establish_session(user: &User) -> (session: SessionWrite)
    ensures
        session == (SessionWrite { user_id: user.id, username: user.username }),
{
    SessionWrite { user_id: user.id, username: user.username.clone() }
}

/// Whether `after` is the store `before` once `profile` has been resolved
/// with the identifier `fresh_id` at hand, and `r` the answer: the first
/// user that stands for the remote account, found and nothing written; or,
/// where there is none, the user made for the profile, stored last; or,
/// where `fresh_id` is taken, a failure and nothing written.
pub open spec fn is_resolve_outcome(
    before: Store,
    profile: UserInfo,
    fresh_id: ObjectId,
    now: i64,
    after: Store,
    r: Result<(User, bool), BlogError>,
) -> bool {
    if holds_external(before.users(), gitee_auth_type(), profile.id) {
        &&& r is Ok
        &&& !r.unwrap().1
        &&& after.users() == before.users()
        &&& before.is_external_lookup(gitee_auth_type(), profile.id, Some(r.unwrap().0))
    } else if holds_user(before.users(), fresh_id) {
        &&& r is Err
        &&& r.unwrap_err() is BackendError
        &&& after.users() == before.users()
    } else {
        &&& r is Ok
        &&& r.unwrap().1
        &&& is_new_gitee_user(profile, fresh_id, now, r.unwrap().0)
        &&& after.users() == before.users().push(r.unwrap().0)
    }
}

/// Resolves a remote profile to a local user and says whether the user was
/// made by this call. A user that already stands for the remote account is
/// returned as stored, and nothing is written. Otherwise a new user with the
/// identifier `fresh_id` is stored and returned; if that identifier is
/// taken, nothing is written and the call fails.
pub fn resolve_user(store: &mut Store, profile: UserInfo, fresh_id: ObjectId, now: i64) -> (r: Result<(User, bool), BlogError>)
    requires
        old(store).wf(),
    ensures
        final(store).wf(),
        final(store).articles() == old(store).articles(),
        is_resolve_outcome(*old(store), profile, fresh_id, now, *final(store), r),
{
    let provider = "gitee".to_owned();
    match store.find_user_by_external_id(&provider, profile.id) {
        Some(user) => { return Ok((user.clone(), false)); },
        None => {},
    }
    let user = new_gitee_user(profile, fresh_id, now);
    let copy = user.clone();
    match store.insert_user(user) {
        Ok(_) => Ok((copy, true)),
        Err(e) => Err(e),
    }
}

/// Once a remote account has been resolved to a new local user, every later
/// lookup of the account finds that very user, with the identifier and the
/// profile it was stored with.
pub proof fn lemma_resolve_finds_what_it_made(
    before: Seq<User>,
    profile: UserInfo,
    id: ObjectId,
    now: i64,
    made: User,
)
    requires
        !holds_external(before, gitee_auth_type(), profile.id),
        is_new_gitee_user(profile, id, now, made),
    ensures
        holds_external(before.push(made), gitee_auth_type(), profile.id),
        is_first_external(before.push(made), gitee_auth_type(), profile.id, before.len() as int),
        forall|i: int|
            is_first_external(before.push(made), gitee_auth_type(), profile.id, i) ==> i
                == before.len() && before.push(made)[i] == made && before.push(made)[i].id == id
                && before.push(made)[i].inner == Some(profile),
{
    let after = before.push(made);
    let n = before.len() as int;
    assert(after[n] == made);
    assert(is_external(after[n], gitee_auth_type(), profile.id));
    assert forall|j: int| 0 <= j < n implies !is_external(
        #[trigger] after[j],
        gitee_auth_type(),
        profile.id,
    ) by {
        assert(after[j] == before[j]);
    }
    assert forall|i: int|
        is_first_external(after, gitee_auth_type(), profile.id, i) implies i == n by {
        if i < n {
            assert(after[i] == before[i]);
        }
    }
}

/// Resolving the same remote account twice gives the same local user both
/// times: the second call makes no user, returns the user of the first call
/// with its identifier and its stored profile, and leaves the store as the
/// first call left it, whatever the remote profile has become since.
pub proof fn lemma_resolve_twice(
    start: Store,
    first_profile: UserInfo,
    first_id: ObjectId,
    first_now: i64,
    between: Store,
    first: Result<(User, bool), BlogError>,
    second_profile: UserInfo,
    second_id: ObjectId,
    second_now: i64,
    end: Store,
    second: Result<(User, bool), BlogError>,
)
    requires
        second_profile.id == first_profile.id,
        is_resolve_outcome(start, first_profile, first_id, first_now, between, first),
        first is Ok,
        is_resolve_outcome(between, second_profile, second_id, second_now, end, second),
    ensures
        second is Ok,
        !second.unwrap().1,
        second.unwrap().0 == first.unwrap().0,
        second.unwrap().0.id == first.unwrap().0.id,
        end.users() == between.users(),
{
    let account = first_profile.id;
    let found = first.unwrap().0;
    if holds_external(start.users(), gitee_auth_type(), account) {
        assert(between.users() == start.users());
        let i = choose|i: int|
            is_first_external(start.users(), gitee_auth_type(), account, i) && found
                == start.users()[i];
        let j = choose|j: int|
            is_first_external(between.users(), gitee_auth_type(), account, j) && second.unwrap().0
                == between.users()[j];
        assert(i == j) by {
            if i < j {
                assert(is_external(between.users()[i], gitee_auth_type(), account));
            }
            if j < i {
                assert(is_external(start.users()[j], gitee_auth_type(), account));
            }
        }
    } else {
        lemma_resolve_finds_what_it_made(start.users(), first_profile, first_id, first_now, found);
        assert(between.users() == start.users().push(found));
        let j = choose|j: int|
            is_first_external(between.users(), gitee_auth_type(), account, j) && second.unwrap().0
                == between.users()[j];
        assert(j == start.users().len());
    }
}

/// No remote account of any provider has two local users.
pub open spec fn accounts_unique(users: Seq<User>) -> bool {
    forall|i: int, j: int, provider: Seq<char>, remote_id: i64|
        0 <= i < j < users.len() && #[trigger] is_external(users[i], provider, remote_id) ==> !(
        #[trigger] is_external(users[j], provider, remote_id))
}

/// Looking up before creating keeps remote accounts apart: where no remote
/// account has two local users and none stands for the profile yet, storing
/// the user made for the profile leaves every remote account with at most
/// one local user.
pub proof fn lemma_resolve_keeps_accounts_unique(
    before: Seq<User>,
    profile: UserInfo,
    id: ObjectId,
    now: i64,
    made: User,
)
    requires
        accounts_unique(before),
        !holds_external(before, gitee_auth_type(), profile.id),
        is_new_gitee_user(profile, id, now, made),
    ensures
        accounts_unique(before.push(made)),
{
    let after = before.push(made);
    assert forall|i: int, j: int, provider: Seq<char>, remote_id: i64|
        0 <= i < j < after.len() && #[trigger] is_external(
            after[i],
            provider,
            remote_id,
        ) implies !(#[trigger] is_external(after[j], provider, remote_id)) by {
        assert(after[i] == before[i]);
        if j < before.len() {
            assert(after[j] == before[j]);
        } else {
            assert(after[j] == made);
            if is_external(made, provider, remote_id) {
                assert(provider == gitee_auth_type() && remote_id == profile.id);
                assert(is_external(before[i], gitee_auth_type(), profile.id));
            }
        }
    }
}

} // verus!
