[package]
name = "pg_wire_codec"
version = "0.1.0"
edition = "2021"
publish = false

[dependencies]
byteorder = "1"
chrono = { version = "0.4", default-features = false, features = ["std"] }
proc-macro2 = "1"
serde = { version = "1", features = ["derive"] }
serde_json = "1"
time = { version = "0.3", default-features = false, features = ["std"] }
url = "2"
