//! The order of the steps of a sign-in through the identity provider, as a
//! state machine: the caller performs the action it is handed and reports
//! what came of it as the next event.

use crate::error::BlogError;
use crate::model::{User, UserInfo};
use crate::oid::ObjectId;
use crate::signin::{establish_session, SessionWrite};
use vstd::prelude::*;

verus! {

/// How far a sign-in has come.
#[derive(Debug)]
pub enum SigninState {
    /// The authorization code is known; the token exchange is under way.
    Start,
    /// The provider has issued an access token.
    TokenExchanged { access_token: String },
    /// The provider has reported the profile. `creating` says that no local
    /// user stands for it and that one is being stored.
    ProfileFetched { profile: UserInfo, creating: bool },
    /// A local user already stood for the remote account.
    UserFound { user_id: ObjectId, username: String },
    /// A local user was stored for the remote account.
    UserCreated { user_id: ObjectId, username: String },
    /// The session names the user. Nothing follows.
    SessionEstablished { session: SessionWrite },
    /// The sign-in has failed. Nothing follows.
    Failed { reason: BlogError },
}

/// What the outside world reports back.
#[derive(Debug)]
pub enum SigninEvent {
    /// The provider exchanged the code for this access token.
    TokenReceived { access_token: String },
    /// The provider reported this profile.
    ProfileReceived { profile: UserInfo },
    /// The provider could not be reached or refused; `body` is its answer.
    ProviderFailed { body: String },
    /// Storage was searched for the remote account.
    UserLookedUp { user: Option<User> },
    /// Storage took the new user under this identifier.
    UserInserted { user_id: ObjectId },
    /// Storage could not be reached or answered with something malformed.
    BackendFailed { message: String },
    /// The session store took the write.
    SessionWritten,
}

/// What the caller is to do next.
#[derive(Debug)]
pub enum SigninAction {
    /// Exchange the authorization code for an access token.
    ExchangeCode { code: String },
    /// Read the profile behind the access token.
    FetchProfile { access_token: String },
    /// Search storage for the user that stands for the remote account.
    FindUser { remote_id: i64 },
    /// Store a new user for the profile.
    InsertUser { profile: UserInfo },
    /// Write the user into the session.
    WriteSession { session: SessionWrite },
}

impl SigninState {
    /// Whether the sign-in is over, one way or the other.
    pub open spec fn is_terminal(self) -> bool {
        self is SessionEstablished || self is Failed
    }

    /// Whether a local user has been found or stored, and the session not
    /// yet written.
    pub open spec fn has_user(self) -> bool {
        self is UserFound || self is UserCreated
    }

    /// Whether the sign-in is over, one way or the other.
    pub fn is_over(&self) -> (r: bool)
        ensures
            r == self.is_terminal(),
    {
        match self {
            SigninState::SessionEstablished { .. } => true,
            SigninState::Failed { .. } => true,
            _ => false,
        }
    }
}

/// The state and the action that follow `event` in `state`.
///
/// A failure reported in a state that is not over ends the sign-in. An event
/// that the state does not wait for changes nothing and asks for nothing.
pub open spec fn signin_next(state: SigninState, event: SigninEvent) -> (
    SigninState,
    Option<SigninAction>,
) {
    if state.is_terminal() {
        (state, None)
    } else {
        match (state, event) {
            (_, SigninEvent::ProviderFailed { body }) => (
                SigninState::Failed { reason: BlogError::ProviderError(body) },
                None,
            ),
            (_, SigninEvent::BackendFailed { message }) => (
                SigninState::Failed { reason: BlogError::BackendError(message) },
                None,
            ),
            (SigninState::Start, SigninEvent::TokenReceived { access_token }) => (
                SigninState::TokenExchanged { access_token },
                Some(SigninAction::FetchProfile { access_token }),
            ),
            (SigninState::TokenExchanged { .. }, SigninEvent::ProfileReceived { profile }) => (
                SigninState::ProfileFetched { profile, creating: false },
                Some(SigninAction::FindUser { remote_id: profile.id }),
            ),
            (
                SigninState::ProfileFetched { profile, creating: false },
                SigninEvent::UserLookedUp { user: Some(user) },
            ) => (
                SigninState::UserFound { user_id: user.id, username: user.username },
                Some(
                    SigninAction::WriteSession {
                        session: SessionWrite { user_id: user.id, username: user.username },
                    },
                ),
            ),
            (
                SigninState::ProfileFetched { profile, creating: false },
                SigninEvent::UserLookedUp { user: None },
            ) => (
                SigninState::ProfileFetched { profile, creating: true },
                Some(SigninAction::InsertUser { profile }),
            ),
            (
                SigninState::ProfileFetched { profile, creating: true },
                SigninEvent::UserInserted { user_id },
            ) => (
                SigninState::UserCreated { user_id, username: profile.name },
                Some(
                    SigninAction::WriteSession {
                        session: SessionWrite { user_id, username: profile.name },
                    },
                ),
            ),
            (SigninState::UserFound { user_id, username }, SigninEvent::SessionWritten) => (
                SigninState::SessionEstablished { session: SessionWrite { user_id, username } },
                None,
            ),
            (SigninState::UserCreated { user_id, username }, SigninEvent::SessionWritten) => (
                SigninState::SessionEstablished { session: SessionWrite { user_id, username } },
                None,
            ),
            (state, _) => (state, None),
        }
    }
}

/// Opens a sign-in for the authorization code that the callback carried.
pub fn signin_begin(code: String) -> (r: (SigninState, SigninAction))
    ensures
        r.0 == SigninState::Start,
        r.1 == (SigninAction::ExchangeCode { code }),
{
    (SigninState::Start, SigninAction::ExchangeCode { code })
}

/// Advances a sign-in by one event.
pub fn signin_step(state: SigninState, event: SigninEvent) -> (r: (SigninState, Option<SigninAction>))
    ensures
        r == signin_next(state, event),
{
    if state.is_over() {
        return (state, None);
    }
    match event {
        SigninEvent::ProviderFailed { body } => (
            SigninState::Failed { reason: BlogError::ProviderError(body) },
            None,
        ),
        SigninEvent::BackendFailed { message } => (
            SigninState::Failed { reason: BlogError::BackendError(message) },
            None,
        ),
        SigninEvent::TokenReceived { access_token } => match state {
            SigninState::Start => {
                let copy = access_token.clone();
                (
                    SigninState::TokenExchanged { access_token },
                    Some(SigninAction::FetchProfile { access_token: copy }),
                )
            },
            other => (other, None),
        },
        SigninEvent::ProfileReceived { profile } => match state {
            SigninState::TokenExchanged { .. } => {
                let remote_id = profile.id;
                (
                    SigninState::ProfileFetched { profile, creating: false },
                    Some(SigninAction::FindUser { remote_id }),
                )
            },
            other => (other, None),
        },
        SigninEvent::UserLookedUp { user } => match state {
            SigninState::ProfileFetched { profile, creating: false } => match user {
                Some(user) => {
                    let session = establish_session(&user);
                    (
                        SigninState::UserFound { user_id: user.id, username: user.username },
                        Some(SigninAction::WriteSession { session }),
                    )
                },
                None => {
                    let copy = profile.clone();
                    (
                        SigninState::ProfileFetched { profile, creating: true },
                        Some(SigninAction::InsertUser { profile: copy }),
                    )
                },
            },
            other => (other, None),
        },
        SigninEvent::UserInserted { user_id } => match state {
            SigninState::ProfileFetched { profile, creating: true } => {
                let username = profile.name.clone();
                (
                    SigninState::UserCreated { user_id, username },
                    Some(
                        SigninAction::WriteSession {
                            session: SessionWrite { user_id, username: profile.name },
                        },
                    ),
                )
            },
            other => (other, None),
        },
        SigninEvent::SessionWritten => match state {
            SigninState::UserFound { user_id, username } => (
                SigninState::SessionEstablished { session: SessionWrite { user_id, username } },
                None,
            ),
            SigninState::UserCreated { user_id, username } => (
                SigninState::SessionEstablished { session: SessionWrite { user_id, username } },
                None,
            ),
            other => (other, None),
        },
    }
}

/// The session write that `action` asks for, if it asks for one.
pub open spec fn session_asked(action: Option<SigninAction>) -> Option<SessionWrite> {
    match action {
        Some(SigninAction::WriteSession { session }) => Some(session),
        _ => None,
    }
}

/// The session that names the user found or stored in `state`, if there is
/// one.
pub open spec fn session_owed(state: SigninState) -> Option<SessionWrite> {
    match state {
        SigninState::UserFound { user_id, username } => Some(SessionWrite { user_id, username }),
        SigninState::UserCreated { user_id, username } => Some(SessionWrite { user_id, username }),
        _ => None,
    }
}

/// The session is written last: a write is asked for only at the step that
/// finds or stores the local user, and it names that user; the session
/// counts as established only after such a write, and holds what was
/// written; a failed sign-in asks for nothing more; and nothing follows the
/// end of a sign-in.
pub proof fn lemma_session_is_written_last(state: SigninState, event: SigninEvent)
    ensures
        session_asked(signin_next(state, event).1) is Some ==> !state.has_user() && signin_next(
            state,
            event,
        ).0.has_user() && session_asked(signin_next(state, event).1) == session_owed(
            signin_next(state, event).0,
        ),
        signin_next(state, event).0 is SessionEstablished && !(state is SessionEstablished)
            ==> state.has_user() && Some(signin_next(state, event).0->session) == session_owed(
            state,
        ),
        signin_next(state, event).0 is Failed ==> signin_next(state, event).1 is None,
        state.is_terminal() ==> signin_next(state, event) == (state, None::<SigninAction>),
{
}

/// A sign-in with a valid code for a remote account that has no local user
/// yet passes through every state in order, asks once for a user to be
/// stored, and ends with a session that names the new user after the remote
/// profile.
pub proof fn lemma_first_signin_run(access_token: String, profile: UserInfo, user_id: ObjectId)
    ensures
        ({
            let s1 = signin_next(SigninState::Start, SigninEvent::TokenReceived { access_token });
            let s2 = signin_next(s1.0, SigninEvent::ProfileReceived { profile });
            let s3 = signin_next(s2.0, SigninEvent::UserLookedUp { user: None });
            let s4 = signin_next(s3.0, SigninEvent::UserInserted { user_id });
            let s5 = signin_next(s4.0, SigninEvent::SessionWritten);
            &&& s1 == (
                SigninState::TokenExchanged { access_token },
                Some(SigninAction::FetchProfile { access_token }),
            )
            &&& s2 == (
                SigninState::ProfileFetched { profile, creating: false },
                Some(SigninAction::FindUser { remote_id: profile.id }),
            )
            &&& s3 == (
                SigninState::ProfileFetched { profile, creating: true },
                Some(SigninAction::InsertUser { profile }),
            )
            &&& s4 == (
                SigninState::UserCreated { user_id, username: profile.name },
                Some(
                    SigninAction::WriteSession {
                        session: SessionWrite { user_id, username: profile.name },
                    },
                ),
            )
            &&& s5 == (
                SigninState::SessionEstablished {
                    session: SessionWrite { user_id, username: profile.name },
                },
                None::<SigninAction>,
            )
        }),
{
}

} // verus!
