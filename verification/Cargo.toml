[package]
name = "skybook_runtime"
version = "0.1.0"
edition = "2021"
publish = false

[dependencies]
teleparse = "0.1.2"
hashlink = "0.10"
oneshot = "0.1"
serde = { version = "1", features = ["derive"] }
thiserror = "2"
log = "0.4"
