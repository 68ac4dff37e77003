[package]
name = "generator"
version = "0.1.0"
edition = "2021"
publish = false

[dependencies]
tera = { version = "=2.4.0", features = ["glob_fs"] }
libc = "=0.2.190"
log = "=0.4.34"
env_logger = "=0.11.11"

[dev-dependencies]
tempdir = "=0.3.7"
