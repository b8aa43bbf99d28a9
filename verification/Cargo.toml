[package]
name = "kcl_lsp_core"
version = "0.1.0"
edition = "2021"
publish = false

[dependencies]
anyhow = "1"
indexmap = "1.9"
lsp-types = "0.93"
parking_lot = "0.12"
ra_ap_vfs = "0.0.149"
serde = { version = "1", features = ["derive"] }
serde_json = "1"
