[package]
name = "irodzuki"
version = "0.1.0"
edition = "2021"
publish = false

[dependencies]
bytemuck = { version = "1", features = ["derive"] }
egaku = "*"
serde = { version = "1", features = ["derive"] }
thiserror = "*"
