pub mod controller; pub mod model; pub mod repository; pub mod service;
