//! Payments: methods and statuses, the installment state machine, an
//! in-memory payment store and the services and controllers over it.
pub mod controller;
pub mod enums;
pub mod main;
pub mod model;
pub mod patterns;
pub mod repository;
pub mod service;
