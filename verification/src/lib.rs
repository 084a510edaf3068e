pub mod api;
pub mod config;
pub mod parse;
pub mod sniffer;
pub mod state;
pub mod storage;
pub mod strutil;
