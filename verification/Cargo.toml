[package]
name = "redmine_api"
version = "0.1.0"
edition = "2021"
publish = false

[dependencies]
serde_json = { version = "=1.0.154", features = ["preserve_order"] }
url = "=2.5.8"
serde = { version = "=1.0.229", features = ["derive"] }
reqwest = { version = "=0.12.28", default-features = false, features = ["blocking", "json", "rustls-tls"] }
time = { version = "=0.3.55", features = ["formatting", "parsing", "macros", "serde", "serde-human-readable"] }
envy = "=0.4.2"
thiserror = "=2.0.21"
futures = "=0.3.34"
bytes = "=1.12.1"
tracing = "=0.1.44"
serde_repr = "=0.1.21"
