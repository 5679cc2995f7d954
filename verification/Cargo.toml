[package]
name = "millet"
version = "0.1.0"
edition = "2021"
publish = false

[dependencies]
anyhow = "1"
crossbeam-channel = "0.5"
drop_bomb = "0.1"
la-arena = "0.3"
log = "0.4"
lsp-server = "*"
lsp-types = "*"
num-bigint = "0.4"
serde = { version = "1", features = ["derive"] }
serde_json = "1"
smol_str = "*"
toml = "*"
