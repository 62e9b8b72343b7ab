pub mod idempotency;
pub mod validate;
