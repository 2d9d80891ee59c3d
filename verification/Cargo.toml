[package]
name = "libfastfetch"
version = "0.1.0"
edition = "2021"
publish = false

[dependencies]
rayon = "1"
libc = "0.2"
clap = { version = "4", features = ["derive"] }
thiserror = "1"
