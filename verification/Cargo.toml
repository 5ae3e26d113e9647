[package]
name = "kubeception"
version = "0.1.0"
edition = "2021"
publish = false

[dependencies]
base64 = "*"
clap = "2"
dbus = "0.9"
env_logger = "*"
handlebars = "*"
log = "0.4"
openssl = "0.10"
reqwest = { version = "0.12", features = ["blocking"] }
rouille = "*"
serde = { version = "1", features = ["derive"] }
serde_json = "1"
toml = "*"
uuid = { version = "1", features = ["v4"] }
