[package]
name = "lore_auth"
version = "0.1.0"
edition = "2021"
publish = false

[dependencies]
anyhow = "1"
async-trait = "0.1"
base64 = "0.22"
clap = { version = "4", features = ["derive", "env"] }
jsonwebtoken = "9"
open = "5"
parking_lot = "0.12"
rand = "0.9"
reqwest = { version = "0.12", default-features = false, features = ["rustls-tls"] }
ring = "0.17"
rustls = { version = "0.23", default-features = false, features = ["ring", "std"] }
serde = { version = "1", features = ["derive"] }
serde_json = "1"
thiserror = "2"
tokio = { version = "1", features = ["io-util", "macros", "net", "rt-multi-thread", "signal", "sync", "time"] }
toml = "0.8"
tonic = { version = "0.14", default-features = false, features = ["channel", "codegen", "tls-native-roots", "tls-ring"] }
tracing = "0.1"
url = "2"
uuid = { version = "1", features = ["v4"] }
