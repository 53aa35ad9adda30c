pub mod connection;
pub mod events;
