[package]
name = "katana_hypervisor"
version = "0.1.0"
edition = "2021"
publish = false

[dependencies]
anyhow = "*"
byte-unit = "*"
chrono = "*"
clap = { version = "*", features = ["derive"] }
directories = "*"
nix = { version = "*", features = ["signal"] }
rusqlite = { version = "*", features = ["bundled"] }
serde = { version = "*", features = ["derive"] }
serde_json = "*"
ureq = "2"
uuid = { version = "*", features = ["v4"] }
