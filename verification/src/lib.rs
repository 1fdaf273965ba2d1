//! Verified core of the building-store back end: customer records,
//! payments with their installment state machine, and user sessions.
pub mod auth;
pub mod clock;
pub mod home;
pub mod ident;
pub mod text;

pub mod manajemen_pelanggan;
pub mod manajemen_pembayaran;
