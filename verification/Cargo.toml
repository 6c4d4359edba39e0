[package]
name = "ironrdp_web_drive"
version = "0.1.0"
edition = "2021"
publish = false

[dependencies]
ironrdp = { version = "=0.17.0", features = ["rdpdr", "svc"] }
futures-channel = "=0.3.34"
futures-util = { version = "=0.3.34", features = ["io"] }
tracing = "=0.1.44"
wasm-bindgen = "=0.2.130"
wasm-bindgen-futures = "=0.4.80"
js-sys = "=0.3.107"
web-sys = { version = "=0.3.107", features = ["File", "Blob", "WritableStream", "FileSystemDirectoryHandle", "FileSystemFileHandle", "FileSystemWritableFileStream", "FileSystemCreateWritableOptions", "FileSystemGetDirectoryOptions", "FileSystemGetFileOptions", "FileSystemRemoveOptions"] }
futures-rustls = { version = "=0.26.0", default-features = false, features = ["ring", "tls12", "logging"] }
x509-cert = "=0.3.0"
