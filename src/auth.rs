//! Resolution of a request's credential into an authenticated principal.
//!
//! A request carries a session identifier, an API token, or nothing
//! ([`extract_credential`]). A session identifier is looked up in the
//! session store, where its session must still be live, then its user by
//! id; an API token is hashed and looked up, with its user, among the
//! stored tokens. The lookups in the user and token tables belong to the
//! caller: [`begin`] says which one a credential needs, and
//! [`Authentication::from_session`] and [`Authentication::from_token`] take
//! what it found.

use vstd::prelude::*;

use crate::api_token::APIToken;
use crate::keys::{hash_token, sha256_hex};
use crate::session::{session_created, session_lookup, Session, SessionManager, StorageError};
use crate::user::User;

verus! {

/// Why a request is not authenticated. Every kind of invalid credential
/// looks the same to the caller: expired, revoked and unknown tokens all
/// give `InvalidAPIToken`.
#[derive(Debug, Clone, Copy, PartialEq, Eq, Structural)]
pub enum AuthenticationError {
    NoAuthenticationProvided,
    InvalidAPIToken,
    InvalidSession,
    /// The endpoint accepts a session only, not an API token.
    MustBeSession,
}

impl AuthenticationError {
    /// The HTTP status that answers the error.
    pub open spec fn spec_status_code(self) -> u16 {
        match self {
            AuthenticationError::MustBeSession => 403,
            _ => 401,
        }
    }

    pub fn status_code(&self) -> (r: u16)
        ensures
            r == self.spec_status_code(),
    {
        match self {
            AuthenticationError::MustBeSession => 403,
            _ => 401,
        }
    }
}

/// The credential that a request carries, before it is checked.
#[derive(Debug, Clone, PartialEq, Eq)]
pub enum AuthenticationRaw {
    /// A session identifier, from the session cookie or header.
    Session(String),
    /// An API token, from the bearer header.
    APIToken(String),
}

impl AuthenticationRaw {
    pub fn is_session(&self) -> (r: bool)
        ensures
            r == (*self is Session),
    {
        match self {
            AuthenticationRaw::Session(_) => true,
            AuthenticationRaw::APIToken(_) => false,
        }
    }
}

/// `s` with the first `n` characters dropped, when they are `prefix`.
pub open spec fn after_prefix(s: Seq<char>, prefix: Seq<char>) -> Option<Seq<char>> {
    if s.len() >= prefix.len() && s.take(prefix.len() as int) == prefix {
        Some(s.skip(prefix.len() as int))
    } else {
        None
    }
}

/// What follows `prefix` in `s`, if `s` starts with it.
pub fn strip_prefix(s: &str, prefix: &str) -> (r: Option<String>)
    ensures
        match after_prefix(s@, prefix@) {
            Some(rest) => r matches Some(t) && t@ == rest,
            None => r is None,
        },
{
    let n = s.unicode_len();
    let m = prefix.unicode_len();
    if n < m {
        return None;
    }
    let head = s.substring_char(0, m).to_owned();
    if head == prefix.to_owned() {
        Some(s.substring_char(m, n).to_owned())
    } else {
        None
    }
}

/// The scheme of an `Authorization` header that carries an API token.
pub open spec fn bearer_scheme() -> Seq<char> {
    "Bearer "@
}

/// The scheme of an `Authorization` header that carries a session
/// identifier.
pub open spec fn session_scheme() -> Seq<char> {
    "Session "@
}

/// The credential of a request with session cookie `cookie` and
/// `Authorization` header `authorization`: the cookie comes first; then
/// `Bearer <token>` gives an API token, and `Session <id>` a session
/// identifier where headers may carry sessions.
pub open spec fn credential_of(
    cookie: Option<Seq<char>>,
    authorization: Option<Seq<char>>,
    allow_in_header: bool,
) -> Option<(bool, Seq<char>)> {
    match cookie {
        Some(c) => Some((true, c)),
        None => match authorization {
            None => None,
            Some(h) => match after_prefix(h, bearer_scheme()) {
                Some(t) => Some((false, t)),
                None => match after_prefix(h, session_scheme()) {
                    Some(id) => if allow_in_header {
                        Some((true, id))
                    } else {
                        None
                    },
                    None => None,
                },
            },
        },
    }
}

/// The view of a credential: whether it is a session, and its text.
pub open spec fn raw_view(raw: Option<AuthenticationRaw>) -> Option<(bool, Seq<char>)> {
    match raw {
        Some(AuthenticationRaw::Session(id)) => Some((true, id@)),
        Some(AuthenticationRaw::APIToken(t)) => Some((false, t@)),
        None => None,
    }
}

/// Reads the credential that a request carries; see [`credential_of`].
pub fn extract_credential(
    cookie: Option<String>,
    authorization: Option<String>,
    allow_in_header: bool,
) -> (r: Option<AuthenticationRaw>)
    ensures
        raw_view(r) == credential_of(
            match cookie {
                Some(c) => Some(c@),
                None => None,
            },
            match authorization {
                Some(h) => Some(h@),
                None => None,
            },
            allow_in_header,
        ),
{
    if let Some(c) = cookie {
        return Some(AuthenticationRaw::Session(c));
    }
    let header = match authorization {
        Some(h) => h,
        None => return None,
    };
    if let Some(token) = strip_prefix(header.as_str(), "Bearer ") {
        return Some(AuthenticationRaw::APIToken(token));
    }
    match strip_prefix(header.as_str(), "Session ") {
        Some(id) => if allow_in_header {
            Some(AuthenticationRaw::Session(id))
        } else {
            None
        },
        None => None,
    }
}

/// The lookup that a credential still needs once the session store has
/// been consulted.
#[derive(Debug, Clone, PartialEq, Eq)]
pub enum CredentialLookup {
    /// The user of this session, by `session.user_id`.
    SessionUser(Session),
    /// The active token whose stored digest is this, with its user.
    Token(String),
}

/// The authenticated principal of a request. It always holds a resolved
/// user.
#[derive(Debug, Clone, PartialEq, Eq)]
pub enum Authentication {
    Session { user: User, session: Session },
    APIToken { user: User, token: APIToken },
}

/// The session that identifier `id` finds in `sessions` at `now`: one that
/// is held and not expired.
pub open spec fn live_session(sessions: Map<Seq<char>, Session>, id: Seq<char>, now: int) -> Option<Session> {
    match session_lookup(sessions, id) {
        Some(s) => if s.expired_at(now) {
            None
        } else {
            Some(s)
        },
        None => None,
    }
}

/// The live session under `id` at `now`, if any.
fn find_live_session<S: SessionManager>(store: &S, id: &str, now: i64) -> (r: Option<Session>)
    ensures
        r == live_session(store.sessions(), id@, now as int),
{
    match store.get_session(id) {
        Some(s) => if s.is_expired(now) {
            None
        } else {
            Some(s)
        },
        None => None,
    }
}

/// The first step of resolution at `now`: no credential fails with
/// `NoAuthenticationProvided`; a session identifier that the store does
/// not hold, or whose session has expired, fails with `InvalidSession`; a
/// live session asks for its user; an API token asks for the token whose
/// digest is the token's.
pub fn begin<S: SessionManager>(raw: Option<AuthenticationRaw>, store: &S, now: i64) -> (r: Result<CredentialLookup, AuthenticationError>)
    ensures
        match raw {
            None => r == Err::<CredentialLookup, AuthenticationError>(AuthenticationError::NoAuthenticationProvided),
            Some(AuthenticationRaw::Session(id)) => match live_session(store.sessions(), id@, now as int) {
                Some(s) => r == Ok::<CredentialLookup, AuthenticationError>(CredentialLookup::SessionUser(s)),
                None => r == Err::<CredentialLookup, AuthenticationError>(AuthenticationError::InvalidSession),
            },
            Some(AuthenticationRaw::APIToken(t)) => r matches Ok(CredentialLookup::Token(d)) && d@ == sha256_hex(t@),
        },
{
    match raw {
        None => Err(AuthenticationError::NoAuthenticationProvided),
        Some(AuthenticationRaw::Session(id)) => match find_live_session(store, id.as_str(), now) {
            Some(s) => Ok(CredentialLookup::SessionUser(s)),
            None => Err(AuthenticationError::InvalidSession),
        },
        Some(AuthenticationRaw::APIToken(t)) => Ok(CredentialLookup::Token(hash_token(t.as_str()))),
    }
}

/// The principal of a held `session` whose user lookup found `user`. A
/// session whose user is gone, or whose lookup found another user, is an
/// invalid session.
pub open spec fn session_resolution(session: Session, user: Option<User>) -> Result<Authentication, AuthenticationError> {
    match user {
        Some(u) => if u.id == session.user_id {
            Ok(Authentication::Session { user: u, session })
        } else {
            Err(AuthenticationError::InvalidSession)
        },
        None => Err(AuthenticationError::InvalidSession),
    }
}

/// The principal of an API token whose lookup found `found`, at `now`. The
/// token must exist, be neither revoked nor expired at `now`, and belong
/// to the user found with it.
pub open spec fn token_resolution(found: Option<(APIToken, User)>, now: int) -> Result<Authentication, AuthenticationError> {
    match found {
        Some((token, user)) => if token.active_at(now) && token.user_id == user.id {
            Ok(Authentication::APIToken { user, token })
        } else {
            Err(AuthenticationError::InvalidAPIToken)
        },
        None => Err(AuthenticationError::InvalidAPIToken),
    }
}

/// A session just created for `user_id` is found live under its
/// identifier until it expires, and resolves with that user to a session
/// principal.
pub proof fn lemma_created_session_resolves(
    before: Map<Seq<char>, Session>,
    after: Map<Seq<char>, Session>,
    user_id: i64,
    lifetime: int,
    s: Session,
    now: int,
    user: User,
)
    requires
        session_created(before, after, user_id, lifetime, Ok::<Session, StorageError>(s)),
        now < s.expires,
        user.id == user_id,
    ensures
        live_session(after, s.session_id@, now) == Some(s),
        session_resolution(s, Some(user)) == Ok::<Authentication, AuthenticationError>(Authentication::Session { user, session: s }),
{
}

/// Once an identifier is invalidated, no live session is found under it,
/// so resolving it gives `InvalidSession`.
pub proof fn lemma_invalidated_session_rejected(before: Map<Seq<char>, Session>, session_id: Seq<char>, now: int)
    ensures
        live_session(before.remove(session_id), session_id, now) is None,
{
}

/// A session whose user has been deleted resolves to `InvalidSession`,
/// never to another error.
pub proof fn lemma_session_of_deleted_user_invalid(session: Session)
    ensures
        session_resolution(session, None) == Err::<Authentication, AuthenticationError>(AuthenticationError::InvalidSession),
{
}

/// A revoked token, and a token whose expiry is before `now`, resolve to
/// `InvalidAPIToken` at `now`, whatever user is found with it.
pub proof fn lemma_inactive_token_invalid(token: APIToken, user: User, now: int)
    requires
        token.revoked is Some || (token.expires_at matches Some(e) && e < now),
    ensures
        token_resolution(Some((token, user)), now) == Err::<Authentication, AuthenticationError>(AuthenticationError::InvalidAPIToken),
{
}

/// What a token lookup keeps of the stored token found for a digest and
/// the user joined to it: the pair, when the token is active at `now` and
/// its user still exists and is not banned.
pub fn get_user_and_token(found: Option<(APIToken, Option<User>)>, now: i64) -> (r: Option<(APIToken, User)>)
    ensures
        r == match found {
            Some((t, Some(u))) => if t.active_at(now as int) && !u.banned {
                Some((t, u))
            } else {
                None
            },
            _ => None,
        },
{
    match found {
        Some((t, Some(u))) => if t.is_active(now) && !u.banned {
            Some((t, u))
        } else {
            None
        },
        _ => None,
    }
}

impl Authentication {
    /// The user of the principal.
    pub open spec fn spec_user(&self) -> User {
        match self {
            Authentication::Session { user, .. } => *user,
            Authentication::APIToken { user, .. } => *user,
        }
    }

    pub fn from_session(session: Session, user: Option<User>) -> (r: Result<Authentication, AuthenticationError>)
        ensures
            r == session_resolution(session, user),
    {
        match user {
            Some(u) => if u.id == session.user_id {
                Ok(Authentication::Session { user: u, session })
            } else {
                Err(AuthenticationError::InvalidSession)
            },
            None => Err(AuthenticationError::InvalidSession),
        }
    }

    pub fn from_token(found: Option<(APIToken, User)>, now: i64) -> (r: Result<Authentication, AuthenticationError>)
        ensures
            r == token_resolution(found, now as int),
    {
        match found {
            Some((token, user)) => if token.is_active(now) && token.user_id == user.id {
                Ok(Authentication::APIToken { user, token })
            } else {
                Err(AuthenticationError::InvalidAPIToken)
            },
            None => Err(AuthenticationError::InvalidAPIToken),
        }
    }

    /// The id of the principal's user.
    pub fn id(&self) -> (r: i64)
        ensures
            r == self.spec_user().id,
    {
        match self {
            Authentication::Session { user, .. } => user.id,
            Authentication::APIToken { user, .. } => user.id,
        }
    }

    /// The principal's user.
    pub fn as_user(&self) -> (r: &User)
        ensures
            *r == self.spec_user(),
    {
        match self {
            Authentication::Session { user, .. } => user,
            Authentication::APIToken { user, .. } => user,
        }
    }

    /// The principal's user, by value.
    pub fn into_user(self) -> (r: User)
        ensures
            r == self.spec_user(),
    {
        match self {
            Authentication::Session { user, .. } => user,
            Authentication::APIToken { user, .. } => user,
        }
    }

    pub fn is_session(&self) -> (r: bool)
        ensures
            r == (*self is Session),
    {
        match self {
            Authentication::Session { .. } => true,
            Authentication::APIToken { .. } => false,
        }
    }
}

/// The principal of an endpoint that a session alone may reach, such as a
/// password change: never a long-lived API token.
#[derive(Debug, Clone, PartialEq, Eq)]
pub struct SessionAuthentication {
    pub user: User,
    pub session: Session,
}

/// What [`SessionAuthentication::begin`] gives for `raw` at `now`.
pub open spec fn spec_session_begin(
    raw: Option<AuthenticationRaw>,
    sessions: Map<Seq<char>, Session>,
    now: int,
) -> Result<Session, AuthenticationError> {
    match raw {
        None => Err(AuthenticationError::NoAuthenticationProvided),
        Some(AuthenticationRaw::APIToken(_)) => Err(AuthenticationError::MustBeSession),
        Some(AuthenticationRaw::Session(id)) => match live_session(sessions, id@, now) {
            Some(s) => Ok(s),
            None => Err(AuthenticationError::InvalidSession),
        },
    }
}

impl SessionAuthentication {
    /// The first step of a session-only resolution at `now`: no credential
    /// fails with `NoAuthenticationProvided`, an API token with
    /// `MustBeSession`, an identifier without a live session with
    /// `InvalidSession`; a live session is returned, and its user is still
    /// to be looked up.
    pub fn begin<S: SessionManager>(raw: Option<AuthenticationRaw>, store: &S, now: i64) -> (r: Result<Session, AuthenticationError>)
        ensures
            r == spec_session_begin(raw, store.sessions(), now as int),
    {
        match raw {
            None => Err(AuthenticationError::NoAuthenticationProvided),
            Some(AuthenticationRaw::APIToken(_)) => Err(AuthenticationError::MustBeSession),
            Some(AuthenticationRaw::Session(id)) => match find_live_session(store, id.as_str(), now) {
                Some(s) => Ok(s),
                None => Err(AuthenticationError::InvalidSession),
            },
        }
    }

    /// The principal of a held `session` whose user lookup found `user`;
    /// `InvalidSession` when the user is gone or is another user.
    pub fn new(session: Session, user: Option<User>) -> (r: Result<SessionAuthentication, AuthenticationError>)
        ensures
            match session_resolution(session, user) {
                Ok(Authentication::Session { user: u, session: s }) => r == Ok::<SessionAuthentication, AuthenticationError>(SessionAuthentication { user: u, session: s }),
                Ok(_) => false,
                Err(e) => r == Err::<SessionAuthentication, AuthenticationError>(e),
            },
    {
        match user {
            Some(u) => if u.id == session.user_id {
                Ok(SessionAuthentication { user: u, session })
            } else {
                Err(AuthenticationError::InvalidSession)
            },
            None => Err(AuthenticationError::InvalidSession),
        }
    }
}

/// Marks an endpoint that only a request without any credential may reach,
/// such as registration.
#[derive(Debug, Clone, Copy, PartialEq, Eq, Hash, Structural)]
pub struct NoAuthenticationAllowed;

impl NoAuthenticationAllowed {
    /// `Some` exactly when the request carries no credential.
    pub fn from_request(raw: &Option<AuthenticationRaw>) -> (r: Option<NoAuthenticationAllowed>)
        ensures
            r is Some <==> raw is None,
    {
        match raw {
            Some(_) => None,
            None => Some(NoAuthenticationAllowed),
        }
    }
}

} // verus!
