[package]
name = "fhe_tally"
version = "0.1.0"
edition = "2021"
publish = false

[dependencies]
tfhe = { version = "=0.6.4", features = ["boolean", "shortint", "integer", "x86_64-unix", "zk-pok-experimental"] }
bincode = "=1.3.3"
serde = { version = "=1.0.229", features = ["derive"] }
serde_json = "=1.0.151"
reqwest = { version = "=0.11.27", default-features = false, features = ["blocking", "json"] }
rocket = { version = "=0.5.1", features = ["json"] }
rocket_cors = "=0.6.0"
