[package]
name = "wasi-tls"
version = "0.1.0"
edition = "2021"
publish = false

[dependencies]
x509-parser = "=0.18.1"
anyhow = "=1.0.104"
tokio = { version = "=1.54.1", features = ["io-util", "rt"] }
tokio-rustls = "=0.26.6"
rustls = "=0.23.46"
webpki-roots = "=1.0.10"
native-tls = "=0.2.18"
tokio-native-tls = "=0.3.1"
wasmtime = { version = "=36.0.20", default-features = false, features = ["component-model", "runtime", "std", "async"] }
wasmtime-wasi = "=36.0.20"
