[package]
name = "scx_synse"
version = "0.1.0"
edition = "2021"
publish = false

[dependencies]
anyhow = "=1.0.104"
async-trait = "=0.1.92"
thiserror = "=2.0.21"
rkyv = "=0.8.18"
tokio = { version = "=1.54.1", features = ["full"] }
scx_loader = "=1.1.3"
zbus = { version = "=5.19.0", default-features = false, features = ["tokio"] }
toml = "=1.1.8"
gtk4 = { version = "=0.11.5", features = ["v4_12"] }
libadwaita = { version = "=0.9.2", features = ["v1_5"] }
