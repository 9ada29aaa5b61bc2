[package]
name = "pgrag"
version = "0.1.0"
edition = "2021"
publish = false

[dependencies]
fastembed = { version = "=3.14.1", default-features = false, features = ["ort-load-dynamic"] }
ort-sys = "=2.0.0-rc.4"
rayon = "=1.12.0"
tokio = { version = "=1.54.1", features = ["rt", "net", "sync", "time"] }
tokio-stream = { version = "=0.1.19", features = ["net"] }
tonic = "=0.12.3"
prost = "=0.13.5"
tower = { version = "=0.4.13", features = ["util"] }
hyper-util = { version = "=0.1.21", features = ["tokio"] }
futures-util = "=0.3.34"
reqwest = { version = "=0.12.28", default-features = false, features = ["stream", "rustls-tls"] }
text-splitter = { version = "=0.14.1", features = ["tokenizers"] }
tokenizers = { version = "=0.19.1", default-features = false, features = ["onig"] }
htmd = "=0.1.6"
pdf-extract = "=0.7.12"
docx-rust = "=0.1.11"
unicode-normalization = "=0.1.26"
serde = { version = "=1.0.229", features = ["derive"] }
serde_json = "=1.0.154"
ureq = { version = "=2.12.1", features = ["json"] }
