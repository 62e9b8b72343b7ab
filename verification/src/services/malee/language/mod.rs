pub mod detect;
pub mod dict;
pub mod normalize;
