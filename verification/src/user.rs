//! User accounts, passwords and login sessions.

use vstd::prelude::*;
use vstd::utf8::encode_utf8;
use crate::decimal::digit_char;
use crate::db::{DbError, DbErrorKind, spec_is_primary_key_constraint};
use crate::error::{Error, ErrorKind};
use crate::ids::{new_uuid, parse_uuid, spec_is_random_uuid, spec_uuid_parse, spec_uuid_text, uuid_text};
use crate::response::{Response, spec_header, spec_text_body};

verus! {

/// The bcrypt cost with which passwords are hashed.
pub const PASSWORD_HASH_COST: u32 = 4;

/// What `bcrypt::verify` answers for a password (its bytes) and a stored
/// hash: whether they match, or nothing where the hash is malformed.
pub uninterp spec fn spec_bcrypt_verify(password: Seq<u8>, hash: Seq<char>) -> Option<bool>;

/// Calls `bcrypt::verify`. Claimed: the result is the name
/// [`spec_bcrypt_verify`] of the password's bytes and the hash, with the
/// crate's errors as `None`.
#[verifier::external_body]
fn bcrypt_verify(password: &str, hash: &str) -> (r: Option<bool>)
    ensures
        r == spec_bcrypt_verify(encode_utf8(password@), hash@),
{
    bcrypt::verify(password, hash).ok()
}

/// The first seven characters of a bcrypt hash made at a cost: the
/// version `$2b$`, the cost in two digits, and `$`.
pub open spec fn spec_bcrypt_prefix(cost: u32) -> Seq<char> {
    seq!['$', '2', 'b', '$', digit_char((cost / 10) as int), digit_char((cost % 10) as int), '$']
}

/// Calls `bcrypt::hash`. Claimed: a cost outside 4 to 31 is an error
/// (`None`); a hash that comes back is sixty characters, starts with
/// `$2b$`, the cost in two digits and `$` (then 22 characters of salt and
/// 31 of hash, as `bcrypt` formats it), and verifies the password it was
/// made of (`bcrypt::hash` hashes with a random salt and writes cost and salt
/// into the hash, which `verify` reads back). The salt, and whether the
/// system's randomness is available, are not stated.
#[verifier::external_body]
fn bcrypt_hash(password: &str, cost: u32) -> (r: Option<String>)
    ensures
        !(4 <= cost <= 31) ==> r is None,
        r matches Some(h) ==> spec_bcrypt_verify(encode_utf8(password@), h@) == Some(true),
        r matches Some(h) ==> h@.len() == 60 && h@.subrange(0, 7) == spec_bcrypt_prefix(cost),
{
    bcrypt::hash(password, cost).ok()
}

/// Whether a password is accepted against what a lookup of the user's
/// stored hash found: only a stored hash that the password verifies.
pub open spec fn spec_password_accepted(password: Seq<u8>, stored: Option<Seq<char>>) -> bool {
    match stored {
        Some(hash) => spec_bcrypt_verify(password, hash) == Some(true),
        None => false,
    }
}

/// A password is accepted against a stored hash exactly when bcrypt
/// verifies it, whatever the password; nothing is accepted without a
/// stored hash.
pub proof fn lemma_password_accepted(password: Seq<u8>, hash: Seq<char>)
    ensures
        spec_password_accepted(password, Some(hash)) <==> spec_bcrypt_verify(password, hash) == Some(true),
        !spec_password_accepted(password, None),
{
}

/// The credentials of a registration or a login.
#[derive(Clone, Debug, PartialEq, Eq)]
pub struct User {
    pub username: String,
    pub password: String,
}

impl User {
    /// Checks a registration: the user name and then the password must not
    /// be empty.
    pub fn validate(&self) -> (r: Result<(), Error>)
        ensures
            self.username@.len() == 0 ==> (r matches Err(e) && e.kind == ErrorKind::BadRequest && e.message@ == "empty username"@),
            self.username@.len() != 0 && self.password@.len() == 0 ==> (r matches Err(e) && e.kind == ErrorKind::BadRequest && e.message@ == "empty password"@),
            self.username@.len() != 0 && self.password@.len() != 0 ==> r is Ok,
    {
        if self.username.as_str().is_empty() {
            Err(Error::new(ErrorKind::BadRequest, "empty username"))
        } else if self.password.as_str().is_empty() {
            Err(Error::new(ErrorKind::BadRequest, "empty password"))
        } else {
            Ok(())
        }
    }

    /// The bcrypt hash, at cost 4, under which the password is stored, if
    /// hashing succeeds (it needs the system's randomness). A hash that
    /// comes back is one against which the same password is accepted at
    /// login.
    pub fn password_hash(&self) -> (r: Option<String>)
        ensures
            r matches Some(h) ==> spec_password_accepted(encode_utf8(self.password@), Some(h@)),
            r matches Some(h) ==> h@.len() == 60 && h@.subrange(0, 7) == seq!['$', '2', 'b', '$', '0', '4', '$'],
    {
        bcrypt_hash(self.password.as_str(), PASSWORD_HASH_COST)
    }


    /// Whether the password is accepted against the result of looking up
    /// the user's stored hash: only a hash that was found and that the
    /// password verifies; a user that was not found, a failed lookup and a
    /// malformed hash all refuse the login.
    pub fn verify_password(&self, stored: Result<String, DbError>) -> (r: bool)
        ensures
            stored matches Ok(h) ==> r == (spec_bcrypt_verify(encode_utf8(self.password@), h@) == Some(true)),
            stored is Err ==> !r,
            r == spec_password_accepted(encode_utf8(self.password@), match stored {
                Ok(h) => Some(h@),
                Err(_) => None,
            }),
    {
        match stored {
            Ok(h) => {
                match bcrypt_verify(self.password.as_str(), h.as_str()) {
                    Some(ok) => ok,
                    None => false,
                }
            },
            Err(_) => false,
        }
    }
}

/// The UUID of the login session that a session cookie's key names, where
/// the key is present and is a UUID.
pub open spec fn spec_session_uuid(key: Option<Seq<char>>) -> Option<u128> {
    match key {
        Some(k) => spec_uuid_parse(k),
        None => None,
    }
}

/// The key of a login session: a random UUID, and the text under which it
/// is kept in the session cookie and in the store.
#[derive(Clone, Debug, PartialEq, Eq)]
pub struct SessionKey {
    pub uuid: u128,
    pub text: String,
}

impl SessionKey {
    /// A fresh session key. Its text, read back from a session cookie,
    /// names the same session.
    pub fn new() -> (r: SessionKey)
        ensures
            spec_is_random_uuid(r.uuid),
            r.text@ == spec_uuid_text(r.uuid),
    {
        let uuid = new_uuid();
        Self::from_uuid(uuid)
    }

    /// The key of the session with the given UUID, as the store keeps it.
    pub fn from_uuid(uuid: u128) -> (r: SessionKey)
        ensures
            r.uuid == uuid,
            r.text@ == spec_uuid_text(uuid),
    {
        let text = uuid_text(uuid);
        SessionKey { uuid, text }
    }
}

/// Why a request was not let through as an authorized user: the error to
/// answer with, and whether the session cookie is to be cleared.
#[derive(Clone, Debug, PartialEq, Eq)]
pub struct Rejection {
    pub error: Error,
    pub clear_session: bool,
}

/// A user whose login session was found in the store.
#[derive(Clone, Debug, PartialEq, Eq)]
pub struct AuthorizedUser {
    pub username: String,
    pub uuid: u128,
}

impl AuthorizedUser {
    /// The first check of a request that needs a login: the session cookie
    /// must hold a key, and the key must be a UUID. A missing key is
    /// unauthorized; a key that is not a UUID is an internal error and
    /// clears the session. A key that is the text of a session key (as
    /// `SessionKey` writes it) names that session.
    pub fn session_uuid(key: Option<&str>) -> (r: Result<u128, Rejection>)
        ensures
            r is Ok <==> spec_session_accepts(match key { Some(k) => Some(k@), None => None }),
            forall|u: u128| key matches Some(k) && k@ == #[trigger] spec_uuid_text(u) ==> r == Ok::<u128, Rejection>(u),
            key is None ==> (r matches Err(j) && j.error.kind == ErrorKind::Unauthorized
                && j.error.message@ == "unauthorized"@ && !j.clear_session),
            key matches Some(k) ==> match spec_uuid_parse(k@) {
                Some(u) => r == Ok::<u128, Rejection>(u),
                None => r matches Err(j) && j.error.kind == ErrorKind::InternalServerError
                    && j.error.message@ == "invalid session"@ && j.clear_session,
            },
    {
        match key {
            None => Err(Rejection { error: Error::new(ErrorKind::Unauthorized, "unauthorized"), clear_session: false }),
            Some(k) => match parse_uuid(k) {
                Some(u) => Ok(u),
                None => Err(Rejection { error: Error::new(ErrorKind::InternalServerError, "invalid session"), clear_session: true }),
            },
        }
    }

    /// The second check: the user name stored for the session. A session
    /// the store does not know is unauthorized and clears the cookie; any
    /// other failure of the lookup is an internal error.
    pub fn from_session(uuid: u128, username: Result<String, DbError>) -> (r: Result<AuthorizedUser, Rejection>)
        ensures
            username matches Ok(name) ==> r == Ok::<AuthorizedUser, Rejection>(AuthorizedUser { username: name, uuid }),
            username matches Err(e) ==> (e.kind == DbErrorKind::QueryReturnedNoRows ==> (r matches Err(j)
                && j.error.kind == ErrorKind::Unauthorized && j.error.message@ == "invalid session"@ && j.clear_session)),
            username matches Err(e) ==> (e.kind != DbErrorKind::QueryReturnedNoRows ==> (r matches Err(j)
                && j.error.kind == ErrorKind::InternalServerError && j.error.message@ == e.message@ && !j.clear_session)),
    {
        match username {
            Ok(name) => Ok(AuthorizedUser { username: name, uuid }),
            Err(e) => match e.kind {
                DbErrorKind::QueryReturnedNoRows => Err(Rejection {
                    error: Error::new(ErrorKind::Unauthorized, "invalid session"),
                    clear_session: true,
                }),
                _ => Err(Rejection { error: Error::internal(e.message), clear_session: false }),
            },
        }
    }

    /// The rejection when no store is configured to look sessions up in.
    pub fn no_database() -> (r: Rejection)
        ensures
            r.error.kind == ErrorKind::InternalServerError,
            r.error.message@ == "unable to connect to db"@,
            !r.clear_session,
    {
        Rejection { error: Error::new(ErrorKind::InternalServerError, "unable to connect to db"), clear_session: false }
    }

    /// The text under which this user's session key is kept.
    pub fn session_key_text(&self) -> (r: String)
        ensures
            r@ == spec_uuid_text(self.uuid),
    {
        SessionKey::from_uuid(self.uuid).text
    }

    /// The answer to a request for the user name: the name itself.
    pub fn get_username(self) -> (r: String)
        ensures
            r == self.username,
    {
        self.username
    }
}

/// The check of a request that needs to be logged out (registration and
/// login): a session cookie that already holds a key is refused.
pub fn check_logged_out(key: Option<&str>) -> (r: Result<(), Error>)
    ensures
        r is Ok <==> spec_logged_out_accepts(match key { Some(k) => Some(k@), None => None }),
        key is None ==> r is Ok,
        key is Some ==> (r matches Err(e) && e.kind == ErrorKind::BadRequest && e.message@ == "already logged in"@),
{
    match key {
        Some(_) => Err(Error::new(ErrorKind::BadRequest, "already logged in")),
        None => Ok(()),
    }
}

/// Whether the logged-out check lets a session cookie's key through.
pub open spec fn spec_logged_out_accepts(key: Option<Seq<char>>) -> bool {
    key is None
}

/// Whether the first login check lets a session cookie's key through.
pub open spec fn spec_session_accepts(key: Option<Seq<char>>) -> bool {
    spec_session_uuid(key) is Some
}

/// No request passes both the logged-out check (`check_logged_out`) and
/// the login check (`AuthorizedUser::session_uuid`).
pub proof fn lemma_logged_in_and_out_exclusive(key: Option<Seq<char>>)
    ensures
        !(spec_logged_out_accepts(key) && spec_session_accepts(key)),
{
}

/// Where to send the browser after a form: back to the referring page, or
/// to the root where the request names none.
pub fn redirect_location(referer: Option<&str>) -> (r: String)
    ensures
        r@ == (match referer {
            Some(s) => s@,
            None => "/"@,
        }),
{
    match referer {
        Some(s) => String::from_str(s),
        None => String::from_str("/"),
    }
}

fn see_other(referer: Option<&str>, text: &str) -> (r: Response)
    ensures
        r.status == 303,
        r.headers@.len() == 1,
        spec_header(r.headers@[0], "location"@, match referer {
            Some(s) => s@,
            None => "/"@,
        }),
        spec_text_body(r.body, text@),
{
    let location = redirect_location(referer);
    Response::text_with_header(303, "location", location.as_str(), text)
}

/// The answer to a registration that was stored: back to the referring
/// page, "user registered".
pub fn registered_response(referer: Option<&str>) -> (r: Response)
    ensures
        r.status == 303,
        r.headers@.len() == 1,
        spec_header(r.headers@[0], "location"@, match referer {
            Some(s) => s@,
            None => "/"@,
        }),
        spec_text_body(r.body, "user registered"@),
{
    see_other(referer, "user registered")
}

/// The answer to a registration that the store refused: a page that goes
/// back where the user name is taken, an error answer otherwise.
pub fn registration_failed(error: DbError) -> (r: Result<Response, Error>)
    ensures
        spec_is_primary_key_constraint(error.kind) ==> (r matches Ok(resp) && resp.status == 303
            && resp.headers@.len() == 1 && spec_header(resp.headers@[0], "content-type"@, "text/html"@)
            && spec_text_body(resp.body, "Unable to register user. <script>setTimeout(function () { history.back() }, 1000)</script>"@)),
        !spec_is_primary_key_constraint(error.kind) ==> (r matches Err(e)
            && e.kind == ErrorKind::InternalServerError && e.message@ == error.message@),
{
    if crate::db::is_primary_key_constraint(&error) {
        Ok(Response::text_with_header(303, "content-type", "text/html",
            "Unable to register user. <script>setTimeout(function () { history.back() }, 1000)</script>"))
    } else {
        Err(Error::from_db(error))
    }
}

/// The answer to a login that was accepted: back to the referring page,
/// "logged in".
pub fn logged_in_response(referer: Option<&str>) -> (r: Response)
    ensures
        r.status == 303,
        r.headers@.len() == 1,
        spec_header(r.headers@[0], "location"@, match referer {
            Some(s) => s@,
            None => "/"@,
        }),
        spec_text_body(r.body, "logged in"@),
{
    see_other(referer, "logged in")
}

/// The answer to a login that was refused: 401 with a page that goes back.
pub fn login_refused_response() -> (r: Response)
    ensures
        r.status == 401,
        r.headers@.len() == 1,
        spec_header(r.headers@[0], "content-type"@, "text/html"@),
        spec_text_body(r.body, "Wrong username or password. <script>setTimeout(function () { history.back() }, 1000)</script>"@),
{
    Response::text_with_header(401, "content-type", "text/html",
        "Wrong username or password. <script>setTimeout(function () { history.back() }, 1000)</script>")
}

/// The answer to a logout: back to the referring page, "logged out".
pub fn logged_out_response(referer: Option<&str>) -> (r: Response)
    ensures
        r.status == 303,
        r.headers@.len() == 1,
        spec_header(r.headers@[0], "location"@, match referer {
            Some(s) => s@,
            None => "/"@,
        }),
        spec_text_body(r.body, "logged out"@),
{
    see_other(referer, "logged out")
}

} // verus!
