[package]
name = "uniffi_dart"
version = "0.2.1"
edition = "2021"
publish = false

[dependencies]
heck = "=0.5.0"
stringcase = "=0.4.0"
toml = "0.9"
anyhow = "=1.0.104"
camino = "=1.2.6"
camino-tempfile = "=1.4.1"
glob = "=0.3.4"
uniffi_bindgen = "=0.31.2"
uniffi_testing = "=0.31.2"
serde = { version = "=1.0.229", features = ["derive"] }
thiserror = "=2.0.21"
tokio = { version = "=1.54.1", features = ["time", "rt-multi-thread", "macros", "sync"] }
futures = "=0.3.34"
once_cell = "=1.21.4"
async-trait = "=0.1.92"
