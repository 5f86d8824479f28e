[package]
name = "wsrpc"
version = "0.1.0"
edition = "2021"
publish = false

[dependencies]
anyhow = "=1.0.104"
log = "=0.4.35"
serde = { version = "=1.0.229", features = ["derive"] }
futures = "=0.3.34"
futures-util = "=0.3.34"
async-stream = "=0.3.6"
tokio = { version = "=0.2.25", features = ["full"] }
tokio-serde = { version = "=0.6.1", features = ["json"] }
tokio-util = { version = "=0.3.1", features = ["codec"] }
tarpc = { version = "=0.22.0", features = ["full"] }
async-tungstenite = { version = "=0.8.0", features = ["tokio-runtime"] }
ws_stream_tungstenite = { version = "=0.3.0", features = ["tokio_io"] }
yew = "=0.17.4"
wasm-bindgen = "=0.2.130"
wasm-bindgen-futures = "=0.4.80"
web-sys = { version = "=0.3.107", features = ["console"] }
ws_stream_wasm = { version = "=0.6.1", features = ["tokio_io"] }
async_io_stream = "=0.1.0"
