pub mod tables;
