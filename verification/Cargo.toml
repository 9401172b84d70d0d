[package]
name = "chartplan"
version = "0.1.0"
edition = "2021"
publish = false

[dependencies]
plotly = { version = "0.8", features = ["kaleido"] }
