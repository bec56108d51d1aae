[package]
name = "plume_federation"
version = "0.1.0"
edition = "2021"
publish = false

[dependencies]
serde = { version = "=1.0.229", features = ["derive"] }
serde_json = "=1.0.154"
base64 = "=0.13.1"
hex = "=0.4.3"
chrono = "=0.4.45"
openssl = "=0.10.81"
array_tool = "=1.0.3"
heck = "=0.5.0"
diesel = { version = "=2.3.14", features = ["sqlite", "r2d2", "chrono"] }
reqwest = { version = "=0.12.28", default-features = false, features = ["default-tls"] }
tokio = { version = "=1.54.1", features = ["rt", "time"] }
actix-web = { version = "=4.18.1", default-features = false, features = ["macros"] }
actix-files = "=0.6.10"
clap = "=2.34.0"
ctrlc = "=3.5.2"
dotenv = "=0.15.0"
env_logger = "=0.10.2"
log = "=0.4.34"
