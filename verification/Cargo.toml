[package]
name = "highway"
version = "0.1.0"
edition = "2021"
publish = false

[dependencies]
alloy = { version = "=0.2.1", default-features = false, features = ["std", "providers", "provider-ws", "contract"] }
alloy-rpc-types-eth = "=0.2.1"
anyhow = "=1.0.104"
async-trait = "=0.1.92"
clap = { version = "=4.6.7", default-features = false, features = ["std", "derive", "help", "usage", "error-context"] }
futures = "=0.3.34"
primitive-types = { version = "=0.12.2", features = ["rustc-hex"] }
rustc-hex = "=2.1.0"
serde = { version = "=1.0.229", features = ["derive"] }
serde_json = "=1.0.154"
tokio = { version = "=1.54.1", features = ["sync", "rt-multi-thread", "macros", "time"] }
tracing = "=0.1.44"
tracing-subscriber = { version = "=0.3.23", default-features = false, features = ["fmt"] }
url = "=2.5.8"
