[package]
name = "buildpkg"
version = "0.1.0"
edition = "2021"
publish = false

[dependencies]
path-clean = "1"
regex = "1"
sha2 = "0.10"
serde = { version = "1", features = ["derive"] }
serde_json = "1"
flate2 = "1"
bzip2 = "0.4"
xz2 = "0.1"
zstd = "0.13"
tar = "0.4"
walkdir = "2"
reqwest = { version = "0.12", features = ["blocking"] }
git2 = "0.19"
mlua = { version = "0.10", features = ["lua54", "vendored"] }
clap = { version = "4", features = ["cargo"] }
thiserror = "1"
