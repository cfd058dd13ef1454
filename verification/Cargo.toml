[package]
name = "chart_engine"
version = "0.1.0"
edition = "2021"
publish = false

[dependencies]
plotters = { version = "*", default-features = false, features = ["line_series", "point_series"] }
plotters-canvas = "*"
wasm-bindgen = "*"
lol_alloc = "*"
