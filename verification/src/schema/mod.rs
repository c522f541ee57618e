pub mod column;
pub mod dialect;
pub mod index;
pub mod types;
