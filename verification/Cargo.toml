[package]
name = "blrs_cli"
version = "0.1.0"
edition = "2021"
publish = false

[dependencies]
chrono = "0.4.45"
uuid = { version = "1.27.0", features = ["v4"] }
clap = { version = "4.6.7", features = ["derive"] }
inquire = "0.9.4"
reqwest = { version = "0.12.28", default-features = false, features = ["blocking"] }
tar = "0.4.46"
xz = "0.1.0"
zip = { version = "8.6.0", default-features = false, features = ["deflate"] }
trash = "5.2.9"
ctrlc = "3.5.2"
indicatif = "0.17.11"
log = "0.4.34"
env_logger = "0.11.11"
serde = { version = "1.0.229", features = ["derive"] }
serde_json = "1.0.151"
toml = "0.8.23"
ansi_term = "0.12.1"
termtree = "0.5.1"
thiserror = "2.0.21"
futures = "0.3.34"
tokio = { version = "1.53.2", features = ["rt", "time"] }
