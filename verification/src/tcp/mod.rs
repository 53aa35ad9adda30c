pub mod command;
pub mod network;
pub mod proxy;
