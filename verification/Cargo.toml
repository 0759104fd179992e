[package]
name = "platform"
version = "0.1.0"
edition = "2021"
publish = false

[dependencies]
dotenvy = "=0.15.7"
hyper = { version = "=0.14.32", features = ["full"] }
libc = "=0.2.191"
log = "=0.4.35"
pretty_env_logger = "=0.5.0"
sqlx = { version = "=0.7.4", features = ["runtime-tokio", "sqlite"] }
stackalloc = "=1.2.2"
tokio = { version = "1", features = ["full"] }
