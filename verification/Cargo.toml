[package]
name = "git_ref"
version = "0.1.0"
edition = "2021"
publish = false

[dependencies]
clap = { version = "=4.6.7", features = ["derive"] }
gix = { version = "=0.90.0", default-features = false, features = ["sha1", "sha256"] }
itertools = "=0.14.0"
tracing = "0.1"
