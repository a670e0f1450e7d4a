pub mod connection;
pub mod manager;
pub mod scanner;
