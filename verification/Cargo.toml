[package]
name = "libsql_migration"
version = "0.1.0"
edition = "2021"
publish = false

[dependencies]
libsql = { version = "*", default-features = false, features = ["core"] }
reqwest = { version = "*", features = ["json"] }
serde = { version = "*", features = ["derive"] }

[dev-dependencies]
tokio = { version = "*", features = ["rt"] }
