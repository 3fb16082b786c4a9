[package]
name = "aimu"
version = "0.1.0"
edition = "2021"
publish = false

[dependencies]
anyhow = "*"
bmi160 = "*"
bmi270 = "*"
evdev = "*"
gamepad_motion = "*"
linux-embedded-hal = "*"
serde = { version = "*", features = ["derive"] }
thiserror = "*"
toml = "*"
