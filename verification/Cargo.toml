[package]
name = "repo_fetch"
version = "0.1.0"
edition = "2021"
publish = false

[dependencies]
clap = { version = "*", features = ["derive"] }
gix = { version = "*", features = ["blocking-network-client"] }
rayon = "*"
