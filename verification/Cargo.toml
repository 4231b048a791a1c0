[package]
name = "pac_import"
version = "0.1.0"
edition = "2021"
publish = false
