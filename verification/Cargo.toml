[package]
name = "blog_backend"
version = "0.1.0"
edition = "2021"
publish = false

[dependencies]
pwhash = "1"
rand = "0.8"
uuid = { version = "1", features = ["v4"] }
serde = { version = "1", features = ["derive"] }
serde_json = "1"
actix-web = { version = "4", default-features = false, features = ["macros", "cookies"] }
actix-session = { version = "0.10", features = ["redis-session"] }
mongodb = "3"
reqwest = { version = "0.12", default-features = false, features = ["rustls-tls"] }
futures = "0.3"
minio-rsc = "0.2"
blake2 = "0.10"
