[package]
name = "state_stack"
version = "0.1.0"
edition = "2021"
publish = false

[dependencies]
anyhow = "1"
alto = "3"
tts = "0.25"
winit = "0.28"
winit_input_helper = "0.14"
