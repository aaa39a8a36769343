[package]
name = "pingpong"
version = "0.1.0"
edition = "2021"
publish = false

[dependencies]
async-channel = "=2.5.0"
directories = "=5.0.1"
hex = "=0.4.3"
iced = { version = "0.13", default-features = false, features = ["tokio"] }
iroh-base = "=0.90.0"
rand = "=0.8.8"
tokio = { version = "=1.54.1", features = ["macros", "rt-multi-thread", "time"] }
