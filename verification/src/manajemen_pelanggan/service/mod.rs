pub mod filter; pub mod filter_context; pub mod pelanggan; pub mod sort; pub mod sort_context;
