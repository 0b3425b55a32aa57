[package]
name = "inventory_core"
version = "0.1.0"
edition = "2021"
publish = false

[dependencies]
actix-web = { version = "4", default-features = false, features = ["macros"] }
chrono = { version = "0.4", features = ["serde"] }
clap = { version = "4", features = ["derive"] }
r2d2 = "0.8"
r2d2_sqlite = "*"
rusqlite = "*"
serde = { version = "1", features = ["derive"] }
thiserror = "1"
