pub mod session; pub mod user;
