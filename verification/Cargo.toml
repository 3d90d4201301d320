[package]
name = "monitor_charts"
version = "0.1.0"
edition = "2021"
publish = false

[dependencies]
palette = "0.7"
plotters = "0.3"
plotters-iced = "*"
serde = { version = "1", features = ["derive"] }
paste = "1"
