//! Credentials and sessions: who may log in, and which request belongs to
//! which user.
//!
//! The credential store is read-only once it is built. A login that presents
//! a token matching the stored hash opens a session; every later request is
//! resolved from its `Cookie` header through the session table; a logout
//! ends all sessions of the user at once.

use crate::cookie::{
    cleared_cookie, cleared_cookie_value, cookie_session_id, lemma_session_cookie_reads_back,
    session_cookie, session_cookie_value, session_id_from_cookie, session_prefix, survives_cookie,
};
use crate::sessions::{without_user, SessionTable};
use crate::text::str_eq;
use vstd::hash_map::StringHashMap;
use vstd::prelude::*;
use vstd::string::StringExecFns;

verus! {

/// What the credential store holds for one user.
#[derive(Debug, Clone)]
pub struct User {
    /// The bcrypt hash of the user's token.
    pub token_hash: String,
    /// The name shown to the user.
    pub name: String,
}

/// The user that a request was made by.
#[derive(Debug, Clone)]
pub struct AuthUser {
    pub username: String,
    pub name: String,
}

/// The body of a login request.
#[derive(Debug, Clone)]
pub struct LoginRequest {
    pub username: String,
    pub token: String,
}

/// The body of the answer to a successful login.
#[derive(Debug, Clone)]
pub struct LoginResponse {
    pub name: String,
}

/// The body of the answer to "who am I".
#[derive(Debug, Clone)]
pub struct WhoAmIResponse {
    pub username: String,
    pub name: String,
}

/// Why a request could not be tied to a user.
#[derive(Debug, Clone, Copy, PartialEq, Eq)]
pub enum AuthError {
    /// The request carries no session cookie: the client is not logged in.
    MissingSession,
    /// The request carries a session cookie that stands for no live session
    /// of a known user: the client has to log in again.
    InvalidSession,
}

/// Why a login was refused. Unknown users and wrong tokens are not told
/// apart.
#[derive(Debug, Clone, Copy, PartialEq, Eq)]
pub enum LoginError {
    InvalidCredentials,
}

/// A login whose credentials have been found to match.
#[derive(Debug, Clone)]
pub struct VerifiedLogin {
    pub username: String,
    /// The display name of the user.
    pub name: String,
}

/// What a successful login hands back.
#[derive(Debug, Clone)]
pub struct LoginGrant {
    /// The identifier of the session that was opened.
    pub session_id: String,
    /// The value of the `Set-Cookie` header.
    pub set_cookie: String,
    /// The body of the answer.
    pub body: LoginResponse,
}

/// What a logout hands back.
#[derive(Debug, Clone)]
pub struct LogoutResponse {
    /// The value of the `Set-Cookie` header, which clears the cookie.
    pub set_cookie: String,
    /// The body of the answer.
    pub message: String,
}

impl AuthError {
    /// The HTTP status that the error is answered with.
    pub open spec fn status(self) -> u16 {
        match self {
            AuthError::MissingSession => 401,
            AuthError::InvalidSession => 403,
        }
    }

    /// The text that the error is answered with.
    pub open spec fn text(self) -> Seq<char> {
        match self {
            AuthError::MissingSession => "Missing session"@,
            AuthError::InvalidSession => "Invalid session"@,
        }
    }

    /// The HTTP status that the error is answered with: 401 where the
    /// session is missing, 403 where it is invalid.
    pub fn status_code(&self) -> (code: u16)
        ensures
            code == self.status(),
    {
        match self {
            AuthError::MissingSession => 401,
            AuthError::InvalidSession => 403,
        }
    }

    /// The text that the error is answered with.
    pub fn message(&self) -> (text: &'static str)
        ensures
            text@ == self.text(),
    {
        match self {
            AuthError::MissingSession => "Missing session",
            AuthError::InvalidSession => "Invalid session",
        }
    }
}

impl LoginError {
    /// The HTTP status that a refused login is answered with.
    pub fn status_code(&self) -> (code: u16)
        ensures
            code == 401,
    {
        401
    }

    /// The text that a refused login is answered with.
    pub fn message(&self) -> (text: &'static str)
        ensures
            text@ == "Invalid username or token"@,
    {
        "Invalid username or token"
    }
}

/// The map that a list of credential entries stands for. Where a username
/// occurs more than once, its last entry counts.
pub open spec fn credentials_of(entries: Seq<(String, User)>) -> Map<Seq<char>, User>
    decreases entries.len(),
{
    if entries.len() == 0 {
        Map::empty()
    } else {
        credentials_of(entries.drop_last()).insert(entries.last().0@, entries.last().1)
    }
}

/// The table of users, by username.
pub struct CredentialStore {
    users: StringHashMap<User>,
}

impl View for CredentialStore {
    type V = Map<Seq<char>, User>;

    /// The map from username to the user's record.
    closed spec fn view(&self) -> Map<Seq<char>, User> {
        self.users@
    }
}

impl CredentialStore {
    /// A store without users.
    pub fn new() -> (store: CredentialStore)
        ensures
            store@ == Map::<Seq<char>, User>::empty(),
    {
        CredentialStore { users: StringHashMap::new() }
    }

    /// Records `user` under `username`, in place of any earlier record.
    pub fn insert(&mut self, username: String, user: User)
        ensures
            final(self)@ == old(self)@.insert(username@, user),
    {
        self.users.insert(username, user);
    }

    /// Looks up the record of `username`.
    pub fn get(&self, username: &str) -> (found: Option<&User>)
        ensures
            match found {
                Some(user) => self@.contains_key(username@) && *user == self@[username@],
                None => !self@.contains_key(username@),
            },
    {
        self.users.get(username)
    }
}

/// Builds the credential store from what was read of the credential file:
/// the entries of the file, or `None` where the file could not be read or
/// understood, which leaves the store empty.
pub fn load_users(parsed: Option<Vec<(String, User)>>) -> (store: CredentialStore)
    ensures
        store@ == match parsed {
            Some(entries) => credentials_of(entries@),
            None => Map::<Seq<char>, User>::empty(),
        },
{
    let mut store = CredentialStore::new();
    match parsed {
        Some(entries) => {
            let ghost all = entries@;
            for entry in it: entries
                invariant
                    it.seq() == all,
                    store@ == credentials_of(all.take(it.index() as int)),
            {
                assert(all.take(it.index() + 1).drop_last() =~= all.take(it.index() as int));
                let (username, user) = entry;
                store.insert(username, user);
            }
            assert(all.take(all.len() as int) =~= all);
        },
        None => {},
    }
    store
}

/// What `bcrypt::verify` answers for a password and a stored hash: whether
/// the password matches the hash, or `None` where it reports an error.
pub uninterp spec fn bcrypt_verdict(password: Seq<char>, hash: Seq<char>) -> Option<bool>;

/// Calls `bcrypt::verify`, which hashes `password` with the cost and salt
/// that `hash` names and compares the outcome with `hash`. Its answer
/// depends on the two texts alone; an error (a hash that is not in bcrypt's
/// format) comes back as `None`.
#[verifier::external_body]
fn bcrypt_verify(password: &str, hash: &str) -> (verdict: Option<bool>)
    ensures
        verdict == bcrypt_verdict(password@, hash@),
{
    bcrypt::verify(password, hash).ok()
}

/// The presented token is accepted only where the comparison ran and found
/// a match; an error of the comparison counts as a mismatch.
pub fn token_accepted(verdict: Option<bool>) -> (accepted: bool)
    ensures
        accepted == (verdict == Some(true)),
{
    match verdict {
        Some(matches) => matches,
        None => false,
    }
}

/// `username` is known and `token` matches the hash stored for it.
pub open spec fn credentials_match(
    users: Map<Seq<char>, User>,
    username: Seq<char>,
    token: Seq<char>,
) -> bool {
    users.contains_key(username) && bcrypt_verdict(token, users[username].token_hash@) == Some(
        true,
    )
}

/// Checks a presented token against the hash stored for `username`. An
/// unknown user is refused like a wrong token.
pub fn verify_token(users: &CredentialStore, username: &str, token: &str) -> (accepted: bool)
    ensures
        accepted == credentials_match(users@, username@, token@),
{
    match users.get(username) {
        Some(user) => token_accepted(bcrypt_verify(token, user.token_hash.as_str())),
        None => false,
    }
}

/// A lowercase hexadecimal digit.
pub open spec fn is_hex_digit(c: char) -> bool {
    ('0' <= c <= '9') || ('a' <= c <= 'f')
}

/// The text form of a random (version 4) UUID: 36 characters, hyphens after
/// the 8th, 12th, 16th and 20th digit, lowercase hexadecimal digits
/// elsewhere, with the version digit `4` and a variant digit of `8` to `b`.
pub open spec fn is_uuid_text(s: Seq<char>) -> bool {
    &&& s.len() == 36
    &&& forall|i: int|
        0 <= i < 36 ==> if i == 8 || i == 13 || i == 18 || i == 23 {
            #[trigger] s[i] == '-'
        } else {
            is_hex_digit(s[i])
        }
    &&& s[14] == '4'
    &&& (s[19] == '8' || s[19] == '9' || s[19] == 'a' || s[19] == 'b')
}

/// Draws a fresh session identifier: `uuid::Uuid::new_v4`, written out by
/// the `Display` of `Uuid`. The identifier is random, so all that is stated
/// is the form of its text. The draw fails, by a panic inside the `uuid`
/// crate, only where the operating system hands out no random bytes.
#[verifier::external_body]
fn fresh_session_id() -> (id: String)
    ensures
        is_uuid_text(id@),
{
    uuid::Uuid::new_v4().to_string()
}

/// Opens a session for `username` under a fresh identifier, and returns
/// the identifier.
pub fn create_session(sessions: &mut SessionTable, username: &str) -> (id: String)
    requires
        old(sessions).well_formed(),
    ensures
        final(sessions).well_formed(),
        final(sessions)@ == old(sessions)@.insert(id@, username@),
        is_uuid_text(id@),
{
    let id = fresh_session_id();
    sessions.insert(id.clone(), String::from_str(username));
    id
}

/// The user that a request belongs to, as `(username, display name)`, or
/// the reason why it belongs to none: a request without a session cookie
/// has no session; one whose cookie names no live session, or a session of
/// a user that the credential store does not know, has an invalid one.
pub open spec fn resolve(
    cookie_header: Option<Seq<char>>,
    sessions: Map<Seq<char>, Seq<char>>,
    users: Map<Seq<char>, User>,
) -> Result<(Seq<char>, Seq<char>), AuthError> {
    match cookie_header {
        None => Err(AuthError::MissingSession),
        Some(header) => match cookie_session_id(header) {
            None => Err(AuthError::MissingSession),
            Some(id) => if sessions.contains_key(id) && users.contains_key(sessions[id]) {
                Ok((sessions[id], users[sessions[id]].name@))
            } else {
                Err(AuthError::InvalidSession)
            },
        },
    }
}

impl AuthUser {
    /// Resolves a request to its user from the value of its `Cookie` header
    /// (`None` where the request has no such header, or one that is not
    /// text).
    pub fn from_request_parts(
        cookie_header: Option<&str>,
        sessions: &SessionTable,
        users: &CredentialStore,
    ) -> (r: Result<AuthUser, AuthError>)
        requires
            sessions.well_formed(),
        ensures
            resolve(
                match cookie_header {
                    Some(header) => Some(header@),
                    None => None,
                },
                sessions@,
                users@,
            ) == match r {
                Ok(user) => Ok((user.username@, user.name@)),
                Err(e) => Err(e),
            },
    {
        let header = match cookie_header {
            Some(header) => header,
            None => { return Err(AuthError::MissingSession); },
        };
        let session_id = match session_id_from_cookie(header) {
            Some(id) => id,
            None => { return Err(AuthError::MissingSession); },
        };
        let username = match sessions.get(session_id) {
            Some(username) => username.clone(),
            None => { return Err(AuthError::InvalidSession); },
        };
        let user = match users.get(username.as_str()) {
            Some(user) => user,
            None => { return Err(AuthError::InvalidSession); },
        };
        Ok(AuthUser { username, name: user.name.clone() })
    }
}

/// Reads the setting that tells a production deployment from a development
/// one: production is on only where the setting is there and is the word
/// `true`.
pub fn production_mode(setting: Option<&str>) -> (production: bool)
    ensures
        production == (setting matches Some(word) && word@ == "true"@),
{
    match setting {
        Some(word) => str_eq(word, "true"),
        None => false,
    }
}

/// The first step of a login, which touches no session: checks the
/// credentials of the request, and looks up the display name where they
/// match.
pub fn check_login(users: &CredentialStore, request: &LoginRequest) -> (r: Result<
    VerifiedLogin,
    LoginError,
>)
    ensures
        match r {
            Ok(verified) => {
                &&& credentials_match(users@, request.username@, request.token@)
                &&& verified.username@ == request.username@
                &&& verified.name@ == users@[request.username@].name@
            },
            Err(_) => !credentials_match(users@, request.username@, request.token@),
        },
{
    if !verify_token(users, request.username.as_str(), request.token.as_str()) {
        return Err(LoginError::InvalidCredentials);
    }
    match users.get(request.username.as_str()) {
        Some(user) => Ok(
            VerifiedLogin { username: request.username.clone(), name: user.name.clone() },
        ),
        None => Err(LoginError::InvalidCredentials),
    }
}

/// The second step of a login: opens a session for the user whose
/// credentials were checked, and writes its cookie.
pub fn open_session(sessions: &mut SessionTable, verified: VerifiedLogin, production: bool) -> (grant:
    LoginGrant)
    requires
        old(sessions).well_formed(),
    ensures
        final(sessions).well_formed(),
        is_uuid_text(grant.session_id@),
        final(sessions)@ == old(sessions)@.insert(grant.session_id@, verified.username@),
        grant.set_cookie@ == session_cookie(grant.session_id@, production),
        grant.body.name@ == verified.name@,
{
    let session_id = create_session(sessions, verified.username.as_str());
    let set_cookie = session_cookie_value(session_id.as_str(), production);
    LoginGrant { session_id, set_cookie, body: LoginResponse { name: verified.name } }
}

/// Handles a login: where the credentials match, opens a session and hands
/// back its cookie and the user's display name; where they do not, changes
/// nothing.
pub fn login(
    users: &CredentialStore,
    sessions: &mut SessionTable,
    request: &LoginRequest,
    production: bool,
) -> (r: Result<LoginGrant, LoginError>)
    requires
        old(sessions).well_formed(),
    ensures
        final(sessions).well_formed(),
        match r {
            Ok(grant) => {
                &&& credentials_match(users@, request.username@, request.token@)
                &&& is_uuid_text(grant.session_id@)
                &&& final(sessions)@ == old(sessions)@.insert(
                    grant.session_id@,
                    request.username@,
                )
                &&& grant.set_cookie@ == session_cookie(grant.session_id@, production)
                &&& grant.body.name@ == users@[request.username@].name@
            },
            Err(_) => {
                &&& !credentials_match(users@, request.username@, request.token@)
                &&& final(sessions)@ == old(sessions)@
            },
        },
{
    match check_login(users, request) {
        Ok(verified) => Ok(open_session(sessions, verified, production)),
        Err(refused) => Err(refused),
    }
}

/// Handles a logout: ends every session of the user and clears the cookie.
pub fn logout(sessions: &mut SessionTable, user: &AuthUser) -> (r: LogoutResponse)
    requires
        old(sessions).well_formed(),
    ensures
        final(sessions).well_formed(),
        final(sessions)@ == without_user(old(sessions)@, user.username@),
        r.set_cookie@ == cleared_cookie(),
        r.message@ == "Logged out"@,
{
    sessions.end_sessions_for_user(user.username.as_str());
    LogoutResponse { set_cookie: cleared_cookie_value(), message: String::from_str("Logged out") }
}

/// Answers "who am I" for the user that the request belongs to.
pub fn whoami(user: AuthUser) -> (r: WhoAmIResponse)
    ensures
        r.username@ == user.username@,
        r.name@ == user.name@,
{
    WhoAmIResponse { username: user.username, name: user.name }
}

/// A fresh session identifier holds nothing that a cookie would cut off.
pub proof fn lemma_uuid_survives_cookie(id: Seq<char>)
    requires
        is_uuid_text(id),
    ensures
        survives_cookie(id),
{
    assert forall|k: int| 0 <= k < id.len() implies id[k] != ';' by {
        assert(id[k] == '-' || is_hex_digit(id[k]));
    }
    assert(is_hex_digit(id[35]));
}

/// A session identifier that is not in the session table is rejected,
/// whatever it looks like and whoever the credential store knows.
pub proof fn lemma_unknown_session_rejected(
    header: Seq<char>,
    sessions: Map<Seq<char>, Seq<char>>,
    users: Map<Seq<char>, User>,
)
    requires
        cookie_session_id(header) matches Some(id) && !sessions.contains_key(id),
    ensures
        resolve(Some(header), sessions, users) == Err::<(Seq<char>, Seq<char>), AuthError>(
            AuthError::InvalidSession,
        ),
{
}

/// A request is resolved only to the owner of a live session that its
/// cookie names, and only where the credential store knows that owner.
pub proof fn lemma_resolved_session_is_live(
    cookie_header: Option<Seq<char>>,
    sessions: Map<Seq<char>, Seq<char>>,
    users: Map<Seq<char>, User>,
)
    requires
        resolve(cookie_header, sessions, users) is Ok,
    ensures
        cookie_header matches Some(header) && cookie_session_id(header) matches Some(id)
            && sessions.contains_key(id) && users.contains_key(sessions[id]) && resolve(
            cookie_header,
            sessions,
            users,
        ) == Ok::<(Seq<char>, Seq<char>), AuthError>((sessions[id], users[sessions[id]].name@)),
{
}

/// After a user's logout every session that was that user's is rejected,
/// not only the one that the logout was made with.
pub proof fn lemma_logout_ends_every_session(
    header: Seq<char>,
    sessions: Map<Seq<char>, Seq<char>>,
    users: Map<Seq<char>, User>,
    username: Seq<char>,
)
    requires
        cookie_session_id(header) matches Some(id) && sessions.contains_key(id) && sessions[id]
            == username,
    ensures
        resolve(Some(header), without_user(sessions, username), users) == Err::<
            (Seq<char>, Seq<char>),
            AuthError,
        >(AuthError::InvalidSession),
{
}

/// A user's logout leaves the sessions of every other user as they were.
pub proof fn lemma_logout_spares_other_users(
    header: Seq<char>,
    sessions: Map<Seq<char>, Seq<char>>,
    users: Map<Seq<char>, User>,
    username: Seq<char>,
)
    requires
        cookie_session_id(header) matches Some(id) && sessions.contains_key(id) && sessions[id]
            != username,
    ensures
        resolve(Some(header), without_user(sessions, username), users) == resolve(
            Some(header),
            sessions,
            users,
        ),
{
}

/// Once a login has opened the session `id` for a known user, a request
/// that sends the session cookie back is resolved to that user: whether it
/// sends the bare cookie or the whole value of the `Set-Cookie` header.
pub proof fn lemma_login_opens_session(
    sessions: Map<Seq<char>, Seq<char>>,
    users: Map<Seq<char>, User>,
    username: Seq<char>,
    id: Seq<char>,
    production: bool,
)
    requires
        users.contains_key(username),
        is_uuid_text(id),
    ensures
        resolve(Some(session_prefix() + id), sessions.insert(id, username), users) == Ok::<
            (Seq<char>, Seq<char>),
            AuthError,
        >((username, users[username].name@)),
        resolve(Some(session_cookie(id, production)), sessions.insert(id, username), users)
            == Ok::<(Seq<char>, Seq<char>), AuthError>((username, users[username].name@)),
{
    lemma_uuid_survives_cookie(id);
    lemma_session_cookie_reads_back(id, production);
}

} // verus!
