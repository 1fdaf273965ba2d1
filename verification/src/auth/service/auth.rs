//! The decisions of registering and logging in; the account lookups and
//! the storing of sessions are done around them.
use vstd::prelude::*;
use crate::auth::model::session::Session;
use crate::auth::model::user::{password_matches, AuthError, User};
use crate::ident::is_uuid_text;

verus! {

pub struct AuthService;

impl AuthService {
    /// Whether a new account may be registered, given the account found
    /// under its username.
    pub fn check_registration(existing: &Option<User>) -> (r: Result<(), AuthError>)
        ensures
            existing is Some <==> r == Err::<(), AuthError>(AuthError::UserExists),
            existing is None <==> r is Ok,
    {
        match existing {
            Some(_) => Err(AuthError::UserExists),
            None => Ok(()),
        }
    }

    /// Logs in: the account found under the username, if any, must accept
    /// `password`; a new session of that account is started.
    pub fn start_session(existing: Option<User>, password: &str) -> (r: Result<Session, AuthError>)
        ensures
            match existing {
                None => r == Err::<Session, AuthError>(AuthError::InvalidCredentials),
                Some(u) => if password_matches(u, password@) {
                    r matches Ok(s) && s.user_id == u.id && is_uuid_text(s.session_key@)
                } else {
                    r == Err::<Session, AuthError>(AuthError::InvalidCredentials)
                },
            },
    {
        let user = match existing {
            Some(u) => u,
            None => {
                return Err(AuthError::InvalidCredentials);
            },
        };
        if !user.verify_password(password) {
            return Err(AuthError::InvalidCredentials);
        }
        Ok(Session::new(user))
    }
}

} // verus!
