[package]
name = "app_network"
version = "0.1.0"
edition = "2021"
publish = false

[dependencies]
cty = "0.2"
cstr_core = "0.2"
