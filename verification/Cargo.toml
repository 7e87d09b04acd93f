[package]
name = "sqlite_session_store"
version = "0.1.0"
edition = "2021"
publish = false

[dependencies]
async-trait = "*"
r2d2 = "*"
r2d2_sqlite = { version = "*", features = ["bundled"] }
rmp-serde = "*"
time = "*"
tower-sessions-core = "*"
