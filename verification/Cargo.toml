[package]
name = "alica_messages"
version = "0.1.0"
edition = "2021"
publish = false

[dependencies]
data-encoding = "2"
json = "0.12"
mockall = "0.11"
sha2 = "0.10"
