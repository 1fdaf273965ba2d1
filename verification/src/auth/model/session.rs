//! A login session.
use vstd::prelude::*;
use crate::auth::model::user::User;
use crate::clock::now_timestamp;
use crate::ident::{is_uuid_text, new_uuid_v4_string};

verus! {

/// How long a session lasts, in seconds: one day.
pub const SESSION_LIFETIME_SECS: i64 = 86400;

/// A login session of a user, valid until `expires_at` (a Unix timestamp).
#[derive(Debug, Clone)]
pub struct Session {
    pub session_key: String,
    pub user_id: i64,
    pub expires_at: i64,
}

/// The expiry of a session started at `now`: a day later, or the last
/// representable moment.
pub open spec fn expiry_after(now: int) -> int {
    if now <= i64::MAX - SESSION_LIFETIME_SECS {
        now + SESSION_LIFETIME_SECS
    } else {
        i64::MAX as int
    }
}

/// A session expiring at `expires_at` is still valid at the time `now`.
pub open spec fn valid_until(expires_at: int, now: int) -> bool {
    now < expires_at
}

impl Session {
    /// A new session of `user`, started at the time `now`.
    pub fn new_at(user: User, now: i64) -> (s: Session)
        ensures
            s.user_id == user.id,
            is_uuid_text(s.session_key@),
            s.expires_at == expiry_after(now as int),
    {
        let expires_at = if now <= i64::MAX - SESSION_LIFETIME_SECS {
            now + SESSION_LIFETIME_SECS
        } else {
            i64::MAX
        };
        Session { session_key: Self::generate_session_key(), user_id: user.id, expires_at }
    }

    /// A new session of `user`, started now: it expires a day after the
    /// moment the clock read.
    pub fn new(user: User) -> (s: Session)
        ensures
            s.user_id == user.id,
            is_uuid_text(s.session_key@),
            exists|now: i64| s.expires_at == expiry_after(now as int),
    {
        let now = now_timestamp();
        let s = Self::new_at(user, now);
        assert(s.expires_at == expiry_after(now as int));
        s
    }

    /// Whether the session is still valid at the time `now`.
    pub fn is_valid_at(&self, now: i64) -> (b: bool)
        ensures
            b == (now < self.expires_at),
    {
        now < self.expires_at
    }

    /// Whether the session is still valid now: whether the time the clock
    /// reads is before the session's expiry.
    pub fn is_valid(&self) -> (b: bool)
        ensures
            exists|now: i64| b == #[trigger] valid_until(self.expires_at as int, now as int),
    {
        let now = now_timestamp();
        let b = self.is_valid_at(now);
        assert(b == valid_until(self.expires_at as int, now as int));
        b
    }

    /// A fresh session key: the text of a random UUID.
    pub fn generate_session_key() -> (k: String)
        ensures
            is_uuid_text(k@),
    {
        new_uuid_v4_string()
    }
}

/// A session is valid when it starts, unless it starts at the last
/// representable moment.
pub proof fn lemma_new_session_is_valid(now: i64)
    requires
        now < i64::MAX,
    ensures
        now < expiry_after(now as int),
{
}

} // verus!
