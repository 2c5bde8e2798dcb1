[package]
name = "rpc_channel"
version = "0.1.0"
edition = "2021"
publish = false

[dependencies]
bytecodec = "*"
byteorder = "1"
fibers = "0.1"
futures = "0.1"
slog = "2"
trackable = "*"
