[package]
name = "rmox"
version = "0.1.0"
edition = "2021"
publish = false

[dependencies]
argh = "*"
bytemuck = { version = "1", features = ["derive"] }
ciborium = "*"
embedded-graphics-core = "*"
evdev = { version = "*", features = ["tokio"] }
futures-core = "*"
inotify = "*"
libc = "*"
memmap2 = "*"
pin-project-lite = "*"
serde = { version = "1", features = ["derive"] }
tokio = { version = "1", features = ["io-util", "macros", "net", "rt", "sync", "time"] }
tokio-stream = "*"
tracing = "*"
tracing-subscriber = "*"
