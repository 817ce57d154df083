pub mod types;
pub mod conversions;
pub mod client;
