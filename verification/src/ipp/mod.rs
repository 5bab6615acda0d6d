pub mod types;
pub mod wire;
pub mod response;
pub mod parser;
pub mod roundtrip;
pub mod printer;
pub mod operations;
pub mod catalog;
