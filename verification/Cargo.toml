[package]
name = "stage0_bin_tdx"
version = "0.1.0"
edition = "2021"
publish = false

[dependencies]
x86_64 = { version = "=0.15.5", default-features = false, features = ["instructions"] }
log = { version = "=0.4.34", default-features = false }
anyhow = { version = "=1.0.104", default-features = false }
