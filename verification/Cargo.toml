[package]
name = "vibebase"
version = "0.1.0"
edition = "2021"
publish = false

[dependencies]
git2 = { version = "*", default-features = false }
rusqlite = { version = "*", features = ["bundled"] }
keyring = "2"
dirs-next = "2"
serde = { version = "*", features = ["derive"] }
serde_json = "*"
uuid = { version = "*", features = ["v4"] }
reqwest = { version = "*", default-features = false, features = ["json"] }

[dev-dependencies]
regex = "*"
tempfile = "*"
