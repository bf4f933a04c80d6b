[package]
name = "hoforras"
version = "0.1.0"
edition = "2021"
publish = false

[dependencies]
fips204 = "=0.4.6"
ml-kem = { version = "=0.3.4", features = ["getrandom"] }
serde_json = "=1.0.154"
serde = { version = "=1.0.229", features = ["derive"] }
serde-big-array = "=0.5.1"
postcard = { version = "=1.1.3", features = ["alloc"] }
thiserror = "=2.0.21"
async-trait = "=0.1.92"
tokio = { version = "=1.54.1", features = ["sync", "rt", "macros"] }
