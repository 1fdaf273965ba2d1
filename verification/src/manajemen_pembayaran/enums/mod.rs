pub mod payment_status;
