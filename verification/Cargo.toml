[package]
name = "vst_template"
version = "0.1.0"
edition = "2021"
publish = false

[dependencies]
vst = "=0.4.0"
vst_window = "=0.3.0"
raw-window-handle = "=0.4.3"
