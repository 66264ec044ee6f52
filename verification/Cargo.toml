[package]
name = "menubar"
version = "0.1.0"
edition = "2021"
publish = false

[dependencies]
icrate = { version = "0.0.4", features = ["AppKit", "Foundation"] }
objc2 = "0.4"
libc = "0.2"
once_cell = "1"
