[package]
name = "filetime_clock"
version = "0.1.0"
edition = "2021"
publish = false

[dependencies]
winapi = { version = "0.3.9", features = ["minwindef", "sysinfoapi"] }
