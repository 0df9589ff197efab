[package]
name = "npf_calc"
version = "0.1.0"
edition = "2021"
publish = false

[dependencies]
fluent = "=0.16.1"
intl-memoizer = "=0.5.3"
unic-langid = "=0.9.6"
serde = { version = "=1.0.229", features = ["derive"] }
plotters = { version = "=0.3.7", default-features = false, features = ["bitmap_backend", "all_series", "all_elements", "ttf"] }
