pub mod chunks;
pub mod client;
pub mod loop_;
pub mod phone;
pub mod pool;
pub mod prompt;
pub mod retry;
pub mod state_machine;
pub mod stream;
pub mod tool_schemas;
pub mod tools;
