pub mod payment_repository;
pub mod payment_repository_impl;
