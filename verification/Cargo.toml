[package]
name = "bcmr"
version = "0.1.0"
edition = "2021"
publish = false

[dependencies]
anyhow = "*"
clap = { version = "*", features = ["derive"] }
config = "*"
crossterm = "*"
directories = "*"
filetime = "*"
libc = "*"
once_cell = "*"
parking_lot = "*"
reflink-copy = "*"
regex = "*"
serde = { version = "*", features = ["derive"] }
sha2 = "*"
signal-hook = "*"
terminal_size = "*"
thiserror = "*"
tokio = { version = "*", features = ["full"] }
walkdir = "*"
