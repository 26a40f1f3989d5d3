[package]
name = "mock_input_relay"
version = "0.1.0"
edition = "2021"
publish = false

[dependencies]
ipc-channel = "*"
