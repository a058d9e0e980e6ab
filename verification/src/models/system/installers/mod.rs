pub mod manager;
pub mod nginx;
pub mod mysql;
pub mod pgsql;
pub mod redis;
pub mod docker;
pub mod runner;
