[package]
name = "yaso"
version = "0.1.0"
edition = "2021"
publish = false

[dependencies]
clap = { version = "4", features = ["derive"] }
libc = "0.2"
quick-js = "0.4"
rquickjs = { version = "0.4", features = ["futures", "loader", "macro"] }
tokio = { version = "1", features = ["full"] }
