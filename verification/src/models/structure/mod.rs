pub mod rp_users;
