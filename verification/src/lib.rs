pub mod clock;
pub mod discord;
pub mod system;
pub mod text;
pub mod web;
pub mod wifi;
