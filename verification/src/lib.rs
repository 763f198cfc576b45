pub mod client;
pub mod common;
pub mod container;
pub mod daemon;
pub mod text;
pub mod unshare;
