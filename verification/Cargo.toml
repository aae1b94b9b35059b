[package]
name = "limbo_util"
version = "0.1.0"
edition = "2021"
publish = false

[dependencies]
clap = { version = "=4.6.7", features = ["derive"] }
limbo_sqlite3_parser = "=0.0.22"
log = "=0.4.35"
rand = "=0.8.8"
rand_chacha = "=0.3.1"
