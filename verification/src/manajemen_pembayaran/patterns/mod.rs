pub mod command; pub mod factory; pub mod observer; pub mod state; pub mod strategy;
