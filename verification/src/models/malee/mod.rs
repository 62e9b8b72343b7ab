pub mod cart;
pub mod checkout;
pub mod events;
pub mod profile;
pub mod session;
