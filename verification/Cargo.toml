[package]
name = "jmmt"
version = "0.1.0"
edition = "2021"
publish = false

[dependencies]
binext = "*"
clap = { version = "4", features = ["derive"] }
image = { version = "*", default-features = false, features = ["png"] }
thiserror = "*"
