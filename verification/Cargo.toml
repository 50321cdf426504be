[package]
name = "oks_util"
version = "0.1.0"
edition = "2021"
publish = false

[dependencies]
anyhow = "*"
hex = "*"
log = "*"
rpassword = "*"
rusty_secrets = "*"
serde = "*"
serde_json = "*"
thiserror = "*"
yubihsm = "*"
zeroize = "*"
