[package]
name = "k8s_job_webhooks"
version = "0.1.0"
edition = "2021"
publish = false

[dependencies]
uuid = { version = "=1.27.0", features = ["v4"] }
chrono = "=0.4.45"
url = "=2.5.8"
moka = { version = "=0.12.16", features = ["sync"] }
yaml-rust2 = "=0.13.0"
actix-web = "=4.15.0"
reqwest = { version = "=0.12.28", default-features = false, features = ["rustls-tls"] }
serde = { version = "=1.0.229", features = ["derive"] }
serde_json = "=1.0.151"
sqlx = { version = "=0.9.0", default-features = false, features = ["runtime-tokio", "sqlite", "chrono"] }
kube = { version = "=3.1.0", default-features = false, features = ["client", "runtime", "rustls-tls"] }
k8s-openapi = { version = "=0.27.1", features = ["latest"] }
futures-util = "=0.3.34"
log = "=0.4.34"
env_logger = "=0.11.11"
anyhow = "=1.0.104"
async-trait = "=0.1.92"
