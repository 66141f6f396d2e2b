[package]
name = "dd_3d_lottery"
version = "0.1.0"
edition = "2021"
publish = false

[dependencies]
sha2 = "*"
hex = "*"
dd_algorithms_lib = "*"
cosmwasm-std = "*"
cosmwasm-schema = "*"
cw2 = "*"
cw-storage-plus = "*"
schemars = "*"
serde = "*"
thiserror = "*"
