[package]
name = "reddcore"
version = "0.1.0"
edition = "2021"
publish = false

[dependencies]
aes-gcm = "0.10"
base64 = "0.22"
bip32 = "0.5"
bip39 = "2"
bs58 = "0.5"
k256 = "0.13"
rand = "0.8"
ripemd = "0.1"
serde = { version = "1", features = ["derive"] }
serde_json = "1"
sha2 = "0.10"
