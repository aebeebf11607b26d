[package]
name = "gamepad_core"
version = "0.1.0"
edition = "2021"
publish = false

[dependencies]
num-traits = "0.2"
xwiimote = "*"
gilrs = "*"
tokio = { version = "1", features = ["macros", "rt", "time"] }
futures = "0.3"
futures-util = "0.3"
