[package]
name = "rust_panel"
version = "0.1.0"
edition = "2021"
publish = false

[dependencies]
rust-crypto = "0.2"
gmsm = "*"
rand = "0.8"
encoding_rs = "0.8"
chrono = { version = "0.4", features = ["serde"] }
os_info = "3"
serde = { version = "1", features = ["derive"] }
serde_json = "1"
serde_yaml = "0.9"
actix-web = "4"
actix-session = { version = "0.9", features = ["cookie-session"] }
actix-files = "0.6"
jsonwebtoken = "9"
diesel = { version = "2", features = ["sqlite", "r2d2", "chrono"] }
libsqlite3-sys = { version = "*", features = ["bundled"] }
r2d2 = "0.8"
tokio = { version = "1", features = ["full"] }
reqwest = { version = "0.12", default-features = false, features = ["rustls-tls"] }
sysinfo = "0.30"
sys-info = "0.9"
get_if_addrs = "0.5"
num_cpus = "1"
bollard = "0.16"
port_check = "0.2"
ureq = "2"
