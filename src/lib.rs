pub mod address;
pub mod client;
pub mod error;
pub mod network;
pub mod session;
