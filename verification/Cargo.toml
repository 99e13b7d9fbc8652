[package]
name = "copy_dir"
version = "0.1.0"
edition = "2021"
publish = false

[dependencies]
fs_extra = "=1.3.0"
log = "*"
nix = { version = "=0.31.3", features = ["fs"] }
walkdir = "=2.5.0"

[dev-dependencies]
tempfile = "=3.27.0"
