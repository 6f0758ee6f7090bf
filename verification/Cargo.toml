[package]
name = "valo"
version = "0.1.0"
edition = "2021"
publish = false

[dependencies]
futures = "0.3"
futures-util = "0.3"
lazy_static = "1"
snafu = "0.7"
structopt = "0.3"
tokio = { version = "1", features = ["fs", "macros", "rt-multi-thread", "signal", "time"] }
