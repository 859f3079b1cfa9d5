[package]
name = "hpm_backend"
version = "0.1.0"
edition = "2021"
publish = false

[dependencies]
anyhow = "1"
base64 = "0.22"
ed25519-dalek = "2"
hex = "0.4"
hk-parser = "*"
indexmap = "2"
landlock = "0.4"
libc = "0.2"
nix = { version = "0.29", features = ["fs", "hostname", "mount", "process", "resource", "sched", "user"] }
seccomp = "0.1"
serde = { version = "1", features = ["derive"] }
serde_json = "1"
sha2 = "0.10"
walkdir = "2"
