[package]
name = "rs_socket"
version = "0.1.0"
edition = "2021"
publish = false

[dependencies]
nix = "0.26"
rand = "0.8"
threadpool = "1.8"
dotenv = "0.15"
log = "0.4"
lazy_static = "1.4"
