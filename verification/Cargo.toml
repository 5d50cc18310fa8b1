[package]
name = "openlogi"
version = "0.1.0"
edition = "2021"
publish = false

[dependencies]
atomic-write-file = "*"
fluent-langneg = "*"
opener = "*"
rust-i18n = "*"
serde = { version = "1", features = ["derive"] }
sys-locale = "*"
thiserror = "2"
tokio = { version = "1", features = ["macros", "rt", "rt-multi-thread", "sync", "time"] }
toml = "*"
tracing = "0.1"
tracing-subscriber = { version = "0.3", features = ["env-filter", "fmt"] }
