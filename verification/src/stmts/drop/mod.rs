pub mod database;
pub mod table;
