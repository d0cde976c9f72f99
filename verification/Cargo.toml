[package]
name = "commit_bench"
version = "0.1.0"
edition = "2021"
publish = false

[dependencies]
anyhow = "1"
clap = { version = "4", features = ["derive"] }
git2 = { version = "*", default-features = false }
gix = { version = "*", default-features = false, features = ["sha1"] }
gix-object = "*"
