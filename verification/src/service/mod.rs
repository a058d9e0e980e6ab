pub mod conf;
pub mod db;
