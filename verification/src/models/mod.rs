pub mod docker;
pub mod file;
pub mod structure;
pub mod system;
pub mod user;
