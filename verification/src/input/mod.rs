pub mod message;
pub mod server;
