[package]
name = "dsu_motion"
version = "0.1.0"
edition = "2021"
publish = false

[dependencies]
hidapi = "*"
sdl2 = "*"
tokio = { version = "*", features = ["rt-multi-thread", "net", "macros", "time"] }
