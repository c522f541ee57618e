pub mod add;
pub mod drop_column;
pub mod modify;
