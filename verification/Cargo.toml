[package]
name = "stegrust"
version = "0.1.0"
edition = "2021"
publish = false

[dependencies]
aes-gcm = "0.10"
argon2 = "0.5"
getrandom = "0.3"
hex = "0.4"
zeroize = "1"
anyhow = "1"
clap = { version = "4", features = ["derive"] }
rpassword = "7"
rusqlite = { version = "*", features = ["bundled-sqlcipher"] }
rusqlite_migration = "*"
serde = { version = "1", features = ["derive"] }
keyring = { version = "3", features = ["linux-native"] }
