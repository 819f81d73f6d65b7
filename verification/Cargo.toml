[package]
name = "natty"
version = "0.1.0"
edition = "2021"
publish = false

[dependencies]
chrono = "0.4"
config = "*"
env_logger = "*"
log = "0.4"
rand = "0.8"
serde = { version = "1", features = ["derive"] }
x11 = { version = "2", features = ["xlib"] }
xcb = { version = "1", features = ["xinput", "xtest"] }
