[package]
name = "mysql_dialect"
version = "0.1.0"
edition = "2021"
publish = false

[dependencies]
anyhow = "1"
arrow = { version = "*", default-features = false }
async-trait = "0.1"
log = "0.4"
mysql = { version = "*", default-features = false, features = ["minimal"] }
