[package]
name = "readout_bridge"
version = "0.1.0"
edition = "2021"
publish = false

[dependencies]
num = "=0.4.3"
capnp = "0.20"
capnp-rpc = "0.20"
futures = "=0.3.34"
tokio = { version = "=1.54.1", features = ["rt", "rt-multi-thread", "net"] }
tokio-util = { version = "=0.7.20", features = ["compat"] }
eframe = { version = "=0.31.1", default-features = false, features = ["glow", "x11", "default_fonts"] }
egui_plot = "=0.31.0"
gen3_rpc = "=0.1.0"
