pub mod types;
pub mod conversions;
