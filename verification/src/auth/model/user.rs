//! A user account and its password hash.
use vstd::prelude::*;

verus! {

#[verifier::external_type_specification]
#[verifier::external_body]
pub struct ExBcryptError(bcrypt::BcryptError);

/// What `bcrypt::verify` reports for `password` against the stored hash
/// `hash`: `Some(true)` where they match, `Some(false)` where they do not,
/// `None` where `hash` is not a bcrypt hash it can read.
pub uninterp spec fn bcrypt_check(password: Seq<char>, hash: Seq<char>) -> Option<bool>;

/// The shape of a hash `bcrypt::hash` makes at cost 12: `$2b$12$` followed
/// by the 22 characters of the salt and the 31 of the digest.
pub open spec fn is_bcrypt_hash(h: Seq<char>) -> bool {
    &&& h.len() == 60
    &&& h.subrange(0, 7) == seq!['$', '2', 'b', '$', '1', '2', '$']
}

/// Calls `bcrypt::hash` with `bcrypt::DEFAULT_COST`.
///
/// Trusted: the salt is random, so the hash itself is not stated; what is
/// stated is its shape, which `HashParts::format` writes (version `2b`, the
/// cost as two digits, the salt and the digest in bcrypt's base 64), and
/// that `bcrypt::verify` accepts `password` against it, which its source
/// shows: it reads back the cost and salt the hash was made with and
/// recomputes the same digest. The call fails only where the operating
/// system gives no random salt.
#[verifier::external_body]
fn hash_password(password: &str) -> (r: Result<String, bcrypt::BcryptError>)
    ensures
        r matches Ok(h) ==> bcrypt_check(password@, h@) == Some(true),
        r matches Ok(h) ==> is_bcrypt_hash(h@),
{
    bcrypt::hash(password, bcrypt::DEFAULT_COST)
}

/// Calls `bcrypt::verify`.
///
/// Trusted: the outcome is named by `bcrypt_check` of the password and the
/// hash; an error is reported as `None`.
#[verifier::external_body]
fn check_password(password: &str, hash: &str) -> (r: Option<bool>)
    ensures
        r == bcrypt_check(password@, hash@),
{
    match bcrypt::verify(password, hash) {
        Ok(b) => Some(b),
        Err(_) => None,
    }
}

/// Why an account operation failed.
#[derive(Debug, Clone, Copy, PartialEq, Eq, Structural)]
pub enum AuthError {
    /// No password hash could be made.
    PasswordHashing,
    /// The username is taken.
    UserExists,
    /// The username or the password is wrong.
    InvalidCredentials,
}

/// A user account; `password` holds the bcrypt hash of the password.
#[derive(Debug, Clone)]
pub struct User {
    pub id: i64,
    pub username: String,
    pub password: String,
    pub is_admin: bool,
}

/// `password` is the password of `user`.
pub open spec fn password_matches(user: User, password: Seq<char>) -> bool {
    bcrypt_check(password, user.password@) == Some(true)
}

impl User {
    /// A new account with identifier 0, storing a bcrypt hash of `password`
    /// in place of the password.
    pub fn new(username: String, password: String, is_admin: bool) -> (r: Result<User, AuthError>)
        ensures
            r matches Ok(u) ==> {
                &&& u.id == 0
                &&& u.username == username
                &&& u.is_admin == is_admin
                &&& is_bcrypt_hash(u.password@)
                &&& password_matches(u, password@)
            },
            r matches Err(e) ==> e == AuthError::PasswordHashing,
    {
        match hash_password(password.as_str()) {
            Ok(hash) => Ok(User { id: 0, username, password: hash, is_admin }),
            Err(_) => Err(AuthError::PasswordHashing),
        }
    }

    /// Whether `password` is the password of this account; a stored hash
    /// that cannot be read matches nothing.
    pub fn verify_password(&self, password: &str) -> (b: bool)
        ensures
            b == password_matches(*self, password@),
    {
        match check_password(password, self.password.as_str()) {
            Some(b) => b,
            None => false,
        }
    }
}

} // verus!
