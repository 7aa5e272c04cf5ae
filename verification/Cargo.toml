[package]
name = "arles"
version = "1.2.0"
edition = "2021"
publish = false

[dependencies]
calamine = "=0.38.0"
csv = "=1.4.0"
directories = "=6.0.0"
encoding_rs = "=0.8.44"
getrandom = "=0.3.4"
keyring = "=4.2.0"
rusqlite = { version = "=0.41.1", features = ["bundled-sqlcipher-vendored-openssl"] }
serde = { version = "=1.0.229", features = ["derive"] }
serde_json = "=1.0.154"
sha2 = "=0.11.1"
thiserror = "=2.0.21"
time = { version = "=0.3.55", features = ["formatting"] }
uuid = { version = "=1.29.1", features = ["v7"] }
zeroize = { version = "=1.9.1", features = ["derive"] }
