pub mod data;
pub mod error;
pub mod protocols;
pub mod server;
pub mod servers;
pub mod tcp;
pub mod traits;
pub mod utils;
