pub mod common;
pub mod handlers;
