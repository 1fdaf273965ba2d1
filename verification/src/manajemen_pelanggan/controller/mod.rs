pub mod pelanggan;
