[package]
name = "sentiric_traffic_cache"
version = "0.1.0"
edition = "2021"
publish = false

[dependencies]
anyhow = "1"
async-trait = "0.1"
config = "0.13"
futures-util = "0.3"
http = "0.2"
hyper = { version = "0.14", features = ["full"] }
hyper-rustls = "0.24"
lazy_static = "1"
md5 = "0.7"
rcgen = { version = "0.11", features = ["pem", "x509-parser"] }
rustls-pemfile = "1"
serde = { version = "1", features = ["derive"] }
serde_json = "1"
tokio = { version = "1", features = ["full"] }
tokio-rustls = "0.24"
tokio-util = { version = "0.7", features = ["io"] }
tracing = "0.1"
tracing-subscriber = { version = "0.3", features = ["env-filter"] }
trust-dns-server = "0.23"
url = "2"
uuid = { version = "1", features = ["v4"] }
warp = "0.3"
wildmatch = "2"

[dev-dependencies]
x509-parser = "0.15"
