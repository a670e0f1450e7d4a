pub mod auth;
pub mod init;
pub mod server;
