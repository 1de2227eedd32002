[package]
name = "ic_canister_stable_storage"
version = "0.1.0"
edition = "2021"
publish = false

[dependencies]
serde = { version = "=1.0.229", features = ["derive"] }
rmp-serde = "=1.3.1"
bincode = "=1.3.3"
flate2 = "=1.1.10"
tokio-retry = "=0.3.2"
hex = "=0.4.3"
time = { version = "=0.3.55", features = ["formatting", "macros"] }
serde_json = "=1.0.154"
serde_bytes = "=0.11.19"
futures = "=0.3.34"
candid = "=0.10.39"
thiserror = "=1.0.69"
async-trait = "=0.1.92"
ic-cdk = "=0.13.6"
num-traits = "=0.2.19"
tracing = "0.1"
