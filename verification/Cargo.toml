[package]
name = "mail_relay"
version = "0.1.0"
edition = "2021"
publish = false

[dependencies]
config = "0.13"
imap = "2.4"
lettre = "0.11"
native-tls = "0.2"
serde = { version = "1", features = ["derive"] }
