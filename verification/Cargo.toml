[package]
name = "error_popup"
version = "0.1.0"
edition = "2021"
publish = false

[dependencies]
ratatui = { version = "=0.29.0", default-features = false }
unicode-segmentation = "=1.13.3"
unicode-width = "=0.2.0"
