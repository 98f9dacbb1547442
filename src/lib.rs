pub mod address;
pub mod error;
pub mod laws;
pub mod vault;
