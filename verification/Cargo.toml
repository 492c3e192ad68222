[package]
name = "ir_telemetry"
version = "0.1.0"
edition = "2021"
publish = false

[dependencies]
serde = { version = "=1.0.229", features = ["derive"] }
log = "=0.4.34"
windows = { version = "=0.58.0", features = ["Win32_Foundation", "Win32_System_Memory", "Win32_System_Threading"] }
windows-core = "=0.58.0"
