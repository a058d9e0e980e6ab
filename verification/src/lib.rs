pub mod api;
pub mod common;
pub mod errors;
pub mod models;
pub mod service;
