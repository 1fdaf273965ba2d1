//! The login and registration form.
use vstd::prelude::*;

verus! {

/// A username and password, as a login or registration form sends them.
pub struct AuthForm {
    pub username: String,
    pub password: String,
}

} // verus!
