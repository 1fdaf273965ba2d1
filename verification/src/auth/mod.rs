//! Users, their passwords and sessions, and the decisions of logging in.
pub mod controller;
pub mod guards;
pub mod model;
pub mod service;
