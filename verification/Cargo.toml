[package]
name = "hogehoge"
version = "0.1.0"
edition = "2021"
publish = false

[dependencies]
anyhow = "=1.0.104"
clap = { version = "=4.6.7", features = ["derive"] }
extism = { version = "=1.30.0", default-features = false, features = ["register-filesystem", "wasmtime-default-features"] }
lofty = "=0.25.4"
rayon = "=1.12.0"
rodio = { version = "=0.21.1", default-features = false }
serde = { version = "=1.0.229", features = ["derive"] }
smallvec = "=1.16.4"
sqlx = { version = "=0.8.6", default-features = false, features = ["sqlite", "runtime-tokio", "uuid"] }
tar = "=0.4.46"
thiserror = "=2.0.21"
tokio = { version = "=1.54.1", features = ["sync", "rt", "rt-multi-thread", "time", "macros"] }
toml = "=1.1.8"
tracing = "=0.1.44"
tracing-subscriber = { version = "=0.3.23", features = ["env-filter"] }
uuid = { version = "=1.29.0", features = ["v4", "serde"] }

[dev-dependencies]
rmp = "=0.8.15"
rmp-serde = "=1.3.1"
serde_bytes = "=0.11.19"
wasmtime = { version = "=43.0.2", default-features = false }
