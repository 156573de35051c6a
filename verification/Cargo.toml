[package]
name = "lua_effects"
version = "0.1.0"
edition = "2021"
publish = false

[dependencies]
mlua = { version = "0.8", features = ["lua54", "vendored"] }
parking_lot = "0.12"
notify = "5"
anyhow = "1"
log = "0.4"
env_logger = "0.9"
pixels = "0.9"
winit = "0.26"
winit_input_helper = "0.11"
