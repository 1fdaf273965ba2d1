//! The user a request is made by, once its session is checked.
use vstd::prelude::*;
use crate::auth::model::session::Session;
use crate::auth::model::user::User;

verus! {

/// The user behind a request with a valid session.
pub struct AuthenticatedUser {
    pub user_id: i64,
    pub username: String,
    pub is_admin: bool,
}

impl AuthenticatedUser {
    /// Admits a request whose session is valid at the time `now`, made by
    /// the account `user` of that session.
    pub fn admit_at(session: &Session, user: User, now: i64) -> (r: Option<AuthenticatedUser>)
        ensures
            r is Some <==> now < session.expires_at,
            r matches Some(a) ==> a.user_id == user.id && a.username == user.username
                && a.is_admin == user.is_admin,
    {
        if !session.is_valid_at(now) {
            return None;
        }
        Some(AuthenticatedUser { user_id: user.id, username: user.username, is_admin: user.is_admin })
    }
}

} // verus!
