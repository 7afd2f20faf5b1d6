[package]
name = "battery-assistant"
version = "0.1.0"
edition = "2021"
publish = false

[dependencies]
battery = "0.7.8"
futures-util = { version = "0.3", default-features = false, features = ["std"] }
log = "0.4"
notify-rust = { version = "4", default-features = false, features = ["z"] }
serde = { version = "1", features = ["derive"] }
tokio = { version = "1", default-features = false, features = ["macros", "rt-multi-thread", "signal", "time"] }
toml = "0.8"
zbus = { version = "4", default-features = false, features = ["tokio"] }
