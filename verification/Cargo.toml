[package]
name = "bevy_iced"
version = "0.1.0"
edition = "2021"
publish = false

[dependencies]
bevy_app = "0.13"
bevy_ecs = "0.13"
bevy_input = "0.13"
bevy_math = "0.13"
bevy_window = "0.13"
iced_core = "0.12"
iced_runtime = "0.12"
