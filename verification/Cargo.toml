[package]
name = "botbox"
version = "0.1.0"
edition = "2021"
publish = false

[dependencies]
core-foundation = "0.10"
ed25519-dalek = "2"
rand_core = { version = "0.6", features = ["getrandom"] }
russh = "0.54.5"
security-framework = "3"
security-framework-sys = "2"
serde = { version = "1", features = ["derive"] }
serde_json = "1"
ssh-key = { version = "0.6.7", features = ["ed25519", "getrandom"] }
tokio = { version = "1", features = ["full"] }
uuid = { version = "1", features = ["v4"] }
zeroize = "1"

[dev-dependencies]
tempfile = "3"
