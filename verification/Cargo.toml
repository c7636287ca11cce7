[package]
name = "elektron_plot"
version = "0.1.0"
edition = "2021"
publish = false

[dependencies]
itertools = "=0.10.5"
ndarray = "=0.15.6"
rand = "=0.8.8"
lazy_static = "=1.4.0"
thiserror = "=1.0.69"
cairo-rs = { version = "=0.16.7", features = ["svg", "png"] }
pangocairo = "=0.16.3"
