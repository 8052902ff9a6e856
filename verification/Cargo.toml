[package]
name = "sideswap_client"
version = "0.1.0"
edition = "2021"
publish = false

[dependencies]
bitcoin = "=0.30.3"
elements = "=0.27.0"
bip39 = "=3.0.0"
rand = "=0.8.8"
crossbeam-channel = "=0.5.17"
log = "=0.4.34"
flexi_logger = "=0.31.10"
allo-isolate = "=0.1.27"
