pub mod client;
pub mod jsonrpc;
pub mod tools;
pub mod types;
