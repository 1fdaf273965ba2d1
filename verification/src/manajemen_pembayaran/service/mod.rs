pub mod payment_service;
pub mod payment_service_impl;
