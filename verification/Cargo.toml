[package]
name = "deltachat_message"
version = "0.1.0"
edition = "2021"
publish = false

[dependencies]
pgp = { version = "0.14", default-features = false }
rusqlite = "=0.21.0"
failure = "=0.1.8"
libc = "=0.2.191"
