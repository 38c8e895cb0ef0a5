[package]
name = "jirafs"
version = "0.1.0"
edition = "2021"
publish = false

[dependencies]
chrono = { version = "0.4", default-features = false, features = ["std"] }
fuser = { version = "*", default-features = false }
libc = "0.2"
regex = "1"
reqwest = { version = "0.12", features = ["blocking", "json"] }
rusqlite = { version = "0.32", features = ["bundled"] }
serde = { version = "1", features = ["derive"] }
serde_json = "1"
shlex = "1"
thiserror = "1"
toml = "0.8"
url = "2"
wait-timeout = "0.2"
