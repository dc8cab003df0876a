[package]
name = "anathema_widgets"
version = "0.1.0"
edition = "2021"
publish = false

[dependencies]
unicode-width = "=0.1.11"
unicode-segmentation = "1"
compact_str = "0.8"
