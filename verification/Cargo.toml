[package]
name = "clipboard_stream"
version = "0.1.0"
edition = "2021"
publish = false

[dependencies]
clipboard-win = { version = "5", features = ["monitor"] }
futures = "0.3"
image = { version = "0.25", default-features = false, features = ["bmp", "png"] }
log = "0.4"
serde = { version = "1", features = ["derive"] }
thiserror = "1"
