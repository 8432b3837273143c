[package]
name = "credman"
version = "0.1.0"
edition = "2021"
publish = false

[dependencies]
rusqlite = { version = "*", features = ["bundled-sqlcipher-vendored-openssl"] }
rand = "*"
rand_chacha = "*"
clap = { version = "*", features = ["derive"] }
clap_complete = "*"
inquire = "*"
serde = { version = "*", features = ["derive"] }
serde_json = "*"
