[package]
name = "chess_board"
version = "0.1.0"
edition = "2021"
publish = false

[dependencies]
bevy = { version = "=0.6.1", default-features = false, features = ["bevy_winit", "render", "png", "x11"] }
bevy_ecs_tilemap = "=0.5.0"
tracing-attributes = "=0.1.23"
