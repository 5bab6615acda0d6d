pub mod http;
pub mod listener;
