pub mod cart;
pub mod checkout;

pub mod connector;
pub mod language;
pub mod llm;
pub mod session_store;
pub mod sse;
