pub mod galaxy;
pub mod http;
