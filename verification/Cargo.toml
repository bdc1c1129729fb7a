[package]
name = "vortex_369"
version = "0.1.0"
edition = "2021"
publish = false

[dependencies]
rand_chacha = { version = "=0.3.1", default-features = false }
sha2 = { version = "=0.10.9", default-features = false }
sha3 = { version = "=0.10.9", default-features = false }
hex = "=0.4.3"
anyhow = "=1.0.104"
serde = { version = "=1.0.229", features = ["derive"] }
serde_json = "=1.0.154"
toml = { version = "=0.8.23", default-features = false, features = ["parse"] }
tokio = { version = "=1.54.1", features = ["macros", "rt-multi-thread", "time"] }
reqwest = { version = "=0.11.27", default-features = false, features = ["json", "rustls-tls"] }
actix-web = { version = "=4.18.1", default-features = false, features = ["macros"] }
ethers-core = { version = "2", default-features = false }
ethers-providers = { version = "2", default-features = false, features = ["rustls"] }
ethers-signers = { version = "2", default-features = false }
clap = { version = "=4.6.7", default-features = false, features = ["std", "derive", "env", "help", "usage", "error-context"] }
tracing = "=0.1.44"
tracing-subscriber = { version = "=0.3.23", default-features = false, features = ["fmt", "std"] }
env_logger = { version = "=0.11.11", default-features = false }
log = "=0.4.34"
