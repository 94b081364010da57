[package]
name = "i_am_legend"
version = "0.1.0"
edition = "2021"
publish = false

[dependencies]
rand = "0.8"
lazy_static = "1"
tokio = { version = "1", features = ["full"] }
rocket = "0.5"
rocket_dyn_templates = { version = "0.1", features = ["tera"] }
