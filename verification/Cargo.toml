[package]
name = "rhaki_cw_plus"
version = "0.1.0"
edition = "2021"
publish = false

[dependencies]
osmosis-std = "=0.27.0"
prost = "=0.13.5"
cosmwasm-std = { version = "=3.0.10", features = ["cosmwasm_2_0"] }
cw-multi-test = "=3.0.1"
anyhow = "1"
serde = { version = "1", features = ["derive"] }
