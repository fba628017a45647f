[package]
name = "workflow_step_editor"
version = "0.1.0"
edition = "2021"
publish = false

[dependencies]
chrono = "0.4"
png = "*"
serde = { version = "1", features = ["derive"] }
serde_json = "1"
libc = "0.2"
