[package]
name = "signet"
version = "0.1.0"
edition = "2021"
publish = false

[dependencies]
anyhow = "1"
argon2 = "0.5"
bpaf = "0.7"
dirs = "5"
hex = "0.4"
indexmap = "2"
keyring = "3"
rand_core = { version = "0.6", features = ["getrandom"] }
rpassword = "7"
serde = { version = "1", features = ["derive"] }
serde_yaml = "0.9"
ssh-key = { version = "0.5", features = ["ed25519", "encryption"] }
zeroize = "1"
