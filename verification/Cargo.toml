[package]
name = "plugin_boundary"
version = "0.1.0"
edition = "2021"
publish = false

[dependencies]
javy-plugin-api = "*"
