pub mod bot;
pub mod storage;
