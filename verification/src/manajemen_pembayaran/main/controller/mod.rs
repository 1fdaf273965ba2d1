pub mod payment_controller;
