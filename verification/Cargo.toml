[package]
name = "yt_rs"
version = "0.1.0"
edition = "2021"
publish = false

[dependencies]
uuid = { version = "=1.29.0", features = ["v4", "serde"] }
chrono = { version = "=0.4.45", features = ["serde"] }
base64 = "=0.22.1"
reqwest = { version = "=0.12.28", default-features = false, features = ["json"] }
serde = { version = "=1.0.229", features = ["derive"] }
serde_json = "=1.0.154"
toml = "=0.8.23"
axum = { version = "=0.7.9", features = ["multipart"] }
tokio = { version = "=1.54.1", features = ["full"] }
tokio-util = { version = "=0.7.20", features = ["io"] }
tower-http = { version = "=0.5.2", features = ["cors", "fs"] }
tracing = "=0.1.44"
tracing-subscriber = { version = "=0.3.23", features = ["env-filter"] }
clap = { version = "=4.6.7", features = ["derive"] }
anyhow = "=1.0.104"
thiserror = "=2.0.21"
async-trait = "=0.1.92"
log = "=0.4.35"
yew = { version = "=0.21.0", features = ["csr"] }
gloo-net = "=0.5.0"
wasm-bindgen = "=0.2.130"
wasm-bindgen-futures = "=0.4.80"
web-sys = { version = "=0.3.107", features = ["File", "FileList", "FormData", "HtmlInputElement", "HtmlElement", "Window", "Document", "Element", "DomRect", "Blob", "MouseEvent", "KeyboardEvent", "Event", "EventTarget"] }
