[package]
name = "bounce"
version = "0.1.0"
edition = "2021"
publish = false

[dependencies]
bytes = "1"
futures = "0.3"
http-body-util = "0.1"
hyper = { version = "1", features = ["client", "server", "http1", "http2"] }
hyper-util = { version = "0.1", features = ["client", "client-legacy", "http1", "http2", "server", "server-auto", "tokio"] }
iced = { version = "0.14", default-features = false, features = ["tiny-skia", "tokio", "x11"] }
tokio = { version = "1", features = ["macros", "net", "rt-multi-thread", "sync"] }
