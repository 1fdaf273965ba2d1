pub mod payment_service_impl;
