//! Operator accounts and the authentication of API callers.

use vstd::prelude::*;
use vstd::string::StringSliceAdditionalSpecFns;
use vstd::string::StrSliceExecFns;
use vstd::utf8::encode_utf8;

use crate::config::AuthenticationType;
use crate::git::opt_view;
use crate::identity::{argon2id_encoding, password_accepts, password_params, HashedPassword};
use crate::text::text_eq;

verus! {

/// An operator account. `password` holds the encoded Argon2id hash. Times are seconds since
/// the Unix epoch, UTC.
#[derive(Debug, Clone)]
pub struct User {
    pub id: String,
    pub username: String,
    pub password: String,
    pub created_at: i64,
    pub updated_at: i64,
}

/// Why a user operation or a login failed.
#[derive(Debug, Clone, Copy, PartialEq, Eq, Structural)]
pub enum UserError {
    UsernameExists,
    PasswordNotSet,
    HashFailed,
    AuthenticationDisabled,
    UserNotFound,
    PasswordMismatch,
}

impl UserError {
    pub fn message(&self) -> (r: String)
        ensures
            *self == UserError::UsernameExists ==> r@ == "Username already exists"@,
            *self == UserError::PasswordNotSet ==> r@ == "Password not set"@,
            *self == UserError::HashFailed ==> r@ == "Unable to hash password"@,
            *self == UserError::AuthenticationDisabled ==> r@ == "User authentication disabled"@,
            *self == UserError::UserNotFound ==> r@ == "User not found"@,
            *self == UserError::PasswordMismatch ==> r@ == "Passwords do not match"@,
    {
        match self {
            UserError::UsernameExists => String::from_str("Username already exists"),
            UserError::PasswordNotSet => String::from_str("Password not set"),
            UserError::HashFailed => String::from_str("Unable to hash password"),
            UserError::AuthenticationDisabled => String::from_str("User authentication disabled"),
            UserError::UserNotFound => String::from_str("User not found"),
            UserError::PasswordMismatch => String::from_str("Passwords do not match"),
        }
    }
}

impl User {
    /// The account that creation stores: refused for a taken username; the password is
    /// stored hashed with `salt`, and the hash accepts the password given.
    pub fn for_creation(input: User, username_taken: bool, id: String, salt: &str, now: i64) -> (r: Result<User, UserError>)
        ensures
            username_taken ==> r == Err::<User, UserError>(UserError::UsernameExists),
            !username_taken && argon2id_encoding(
                encode_utf8(input.password@),
                salt.spec_bytes(),
                password_params(),
            ) is None ==> r == Err::<User, UserError>(UserError::HashFailed),
            !username_taken && argon2id_encoding(
                encode_utf8(input.password@),
                salt.spec_bytes(),
                password_params(),
            ) is Some ==> r is Ok,
            !username_taken && 8 <= salt.spec_bytes().len() <= u32::MAX && encode_utf8(
                input.password@,
            ).len() <= u32::MAX ==> r is Ok,
            r matches Ok(u) ==> {
                &&& u.id == id
                &&& u.username == input.username
                &&& Some(u.password@) == argon2id_encoding(
                    encode_utf8(input.password@),
                    salt.spec_bytes(),
                    password_params(),
                )
                &&& password_accepts(u.password@, encode_utf8(input.password@))
                &&& u.created_at == now
                &&& u.updated_at == now
            },
    {
        if username_taken {
            return Err(UserError::UsernameExists);
        }
        match HashedPassword::new(input.password.as_str(), salt) {
            Some(h) => Ok(User {
                id,
                username: input.username,
                password: h.into_string(),
                created_at: now,
                updated_at: now,
            }),
            None => Err(UserError::HashFailed),
        }
    }
}

/// A requested password change; an empty password is no password.
#[derive(Debug, Clone)]
pub struct UpdateUserPassword {
    pub password: Option<String>,
}

impl UpdateUserPassword {
    pub fn from_input(password: String) -> (r: Self)
        ensures
            password@.len() == 0 ==> r.password is None,
            password@.len() > 0 ==> r.password == Some(password),
    {
        if password.as_str().is_empty() {
            UpdateUserPassword { password: None }
        } else {
            UpdateUserPassword { password: Some(password) }
        }
    }

    /// The encoded hash to store, made with a fresh `salt`.
    pub fn hashed(&self, salt: &str) -> (r: Result<String, UserError>)
        ensures
            self.password is None ==> r == Err::<String, UserError>(UserError::PasswordNotSet),
            self.password matches Some(p) ==> match argon2id_encoding(
                encode_utf8(p@),
                salt.spec_bytes(),
                password_params(),
            ) {
                Some(e) => r is Ok && r->Ok_0@ == e,
                None => r == Err::<String, UserError>(UserError::HashFailed),
            },
            self.password is Some && 8 <= salt.spec_bytes().len() <= u32::MAX && encode_utf8(
                self.password->Some_0@,
            ).len() <= u32::MAX ==> r is Ok,
            r matches Ok(e) ==> password_accepts(e@, encode_utf8(self.password->Some_0@)),
    {
        match &self.password {
            None => Err(UserError::PasswordNotSet),
            Some(p) => match HashedPassword::new(p.as_str(), salt) {
                Some(h) => Ok(h.into_string()),
                None => Err(UserError::HashFailed),
            },
        }
    }
}

/// The claims of an API session token: who, and until when (milliseconds since the epoch).
#[derive(Debug, Clone)]
pub struct UserPayload {
    pub username: String,
    pub exp: u128,
}

/// How long a session token lasts, in milliseconds.
pub const TOKEN_LIFETIME_MS: u128 = 60000;

#[verifier::external_type_specification]
#[verifier::external_body]
pub struct ExSystemTime(std::time::SystemTime);

/// Relies on std's `SystemTime::now`: the system clock's current reading.
#[verifier::external_body]
fn system_now() -> (r: std::time::SystemTime) {
    std::time::SystemTime::now()
}

/// Relies on std's `SystemTime::duration_since` with `UNIX_EPOCH`: the time since the epoch,
/// or an error for a reading before it.
#[verifier::external_body]
fn since_unix_epoch(t: &std::time::SystemTime) -> (r: Option<core::time::Duration>) {
    t.duration_since(std::time::UNIX_EPOCH).ok()
}

/// Relies on std's `Duration::as_millis`: the whole milliseconds of the duration.
#[verifier::external_body]
fn duration_millis(d: &core::time::Duration) -> (r: u128) {
    d.as_millis()
}

impl UserPayload {
    /// Claims for `username` that expire a minute after `now_ms`.
    pub fn expiring(username: &str, now_ms: u128) -> (r: Self)
        requires
            now_ms + TOKEN_LIFETIME_MS <= u128::MAX,
        ensures
            r.username@ == username@,
            r.exp == now_ms + TOKEN_LIFETIME_MS,
    {
        UserPayload { username: String::from_str(username), exp: now_ms + TOKEN_LIFETIME_MS }
    }

    /// Claims for `username` that expire a minute from now; a clock before the epoch or at the
    /// end of time counts as the epoch.
    pub fn new(username: &str) -> (r: Self)
        ensures
            r.username@ == username@,
            r.exp >= TOKEN_LIFETIME_MS,
    {
        let reading = system_now();
        let now: u128 = match since_unix_epoch(&reading) {
            Some(d) => {
                let t: u128 = duration_millis(&d);
                if t <= u128::MAX - TOKEN_LIFETIME_MS {
                    t
                } else {
                    0
                }
            },
            None => 0,
        };
        Self::expiring(username, now)
    }
}

/// The decoded claims of an authenticated request; none when authentication is off.
#[derive(Debug, Clone)]
pub struct AuthenticationPayload(pub Option<UserPayload>);

/// A login request.
#[derive(Debug, Clone)]
pub struct UserCredentials {
    pub username: String,
    pub password: String,
}

/// A login answer: the claims and the signed token.
#[derive(Debug, Clone)]
pub struct LoginResponse {
    pub payload: UserPayload,
    pub token: String,
}

/// Checks a login against the stored account for `username`.
pub fn authenticate_user(authentication_type: AuthenticationType, user: Option<&User>, username: &str, password: &str) -> (r: Result<UserPayload, UserError>)
    ensures
        authentication_type == AuthenticationType::NoAuthentication ==> r == Err::<
            UserPayload,
            UserError,
        >(UserError::AuthenticationDisabled),
        authentication_type == AuthenticationType::Simple && user is None ==> r == Err::<
            UserPayload,
            UserError,
        >(UserError::UserNotFound),
        authentication_type == AuthenticationType::Simple && user is Some && !password_accepts(
            user->Some_0.password@,
            password.spec_bytes(),
        ) ==> r == Err::<UserPayload, UserError>(UserError::PasswordMismatch),
        authentication_type == AuthenticationType::Simple && user is Some && password_accepts(
            user->Some_0.password@,
            password.spec_bytes(),
        ) ==> r is Ok && r->Ok_0.username@ == username@,
{
    match authentication_type {
        AuthenticationType::NoAuthentication => Err(UserError::AuthenticationDisabled),
        AuthenticationType::Simple => match user {
            None => Err(UserError::UserNotFound),
            Some(u) => if HashedPassword::verify(password, u.password.as_str()) {
                Ok(UserPayload::new(username))
            } else {
                Err(UserError::PasswordMismatch)
            },
        },
    }
}

/// The token of an `Authorization: Bearer <token>` header: the header splits at spaces into
/// exactly `Bearer` and the token.
pub open spec fn bearer_spec(header: Seq<char>) -> Option<Seq<char>> {
    if header.len() >= 7 && header.take(7) == "Bearer "@ && !header.skip(7).contains(' ') {
        Some(header.skip(7))
    } else {
        None
    }
}

pub fn bearer_token(header: &str) -> (r: Option<String>)
    ensures
        opt_view(r) == bearer_spec(header@),
{
    let len: usize = header.unicode_len();
    if len < 7 {
        return None;
    }
    if !text_eq(header.substring_char(0, 7), "Bearer ") {
        return None;
    }
    let token = header.substring_char(7, len);
    let n: usize = token.unicode_len();
    let mut i: usize = 0;
    while i < n
        invariant
            0 <= i <= n,
            n == token@.len(),
            token@ == header@.skip(7),
            forall|k: int| 0 <= k < i ==> token@[k] != ' ',
        decreases n - i,
    {
        if token.get_char(i) == ' ' {
            proof {
                assert(token@[i as int] == ' ');
            }
            return None;
        }
        i += 1;
    }
    Some(String::from_str(token))
}

/// How an API request is let in.
#[derive(Debug, Clone)]
pub enum Authorization {
    /// Authentication is off: every request is let in.
    Open,
    /// The bearer token to verify.
    Token(String),
    /// No usable `Authorization` header.
    Denied,
}

/// Decides from the `Authorization` header what authenticates a request.
pub fn authorize(authentication_type: AuthenticationType, header: Option<&str>) -> (r: Authorization)
    ensures
        authentication_type == AuthenticationType::NoAuthentication ==> r is Open,
        authentication_type == AuthenticationType::Simple && header is None ==> r is Denied,
        authentication_type == AuthenticationType::Simple && header is Some ==> match bearer_spec(
            header->Some_0@,
        ) {
            Some(t) => r is Token && r->Token_0@ == t,
            None => r is Denied,
        },
{
    match authentication_type {
        AuthenticationType::NoAuthentication => Authorization::Open,
        AuthenticationType::Simple => match header {
            None => Authorization::Denied,
            Some(h) => match bearer_token(h) {
                Some(t) => Authorization::Token(t),
                None => Authorization::Denied,
            },
        },
    }
}

/// What the API returns for an account: never the password hash.
#[derive(Debug, Clone)]
pub struct UserResponse {
    pub id: String,
    pub username: String,
    pub created_at: i64,
    pub updated_at: i64,
}

impl UserResponse {
    pub fn from_user(user: User) -> (r: Self)
        ensures
            r.id == user.id,
            r.username == user.username,
            r.created_at == user.created_at,
            r.updated_at == user.updated_at,
    {
        UserResponse {
            id: user.id,
            username: user.username,
            created_at: user.created_at,
            updated_at: user.updated_at,
        }
    }
}

} // verus!
