[package]
name = "framework_plan"
version = "0.1.0"
edition = "2021"
publish = false

[dependencies]
arrow = { version = "=59.3.2", default-features = false }
arrow-cast = { version = "=59.3.2", default-features = false }
comfy-table = { version = "=7.2.2", default-features = false }
html-escape = "=0.3.0"
datafusion = { version = "=55.2.0", default-features = false }
datafusion-common = { version = "=55.2.0", default-features = false }
datafusion-expr = { version = "=55.2.0", default-features = false }
serde = { version = "=1.0.229", features = ["derive"] }
