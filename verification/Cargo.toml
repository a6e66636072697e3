[package]
name = "onoma_bridge"
version = "0.1.0"
edition = "2021"
publish = false

[dependencies]
flexi_logger = "*"
futures = "*"
log = "0.4"
mlua = { version = "*", features = ["module", "luajit", "async", "macros"] }
onoma = "*"
tokio = { version = "1", features = ["rt-multi-thread", "macros"] }
tokio-stream = "*"
xdir = "*"
