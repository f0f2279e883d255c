[package]
name = "bext"
version = "0.1.0"
edition = "2021"
publish = false

[dependencies]
semver = "1"
toml_edit = "0.22"
glob = "0.3"
clap = { version = "4", features = ["derive"] }
colored = "2"
dirs = "5"
walkdir = "2"
zip = { version = "2", default-features = false, features = ["deflate"] }
junction = "1"
pep440_rs = "0.7"
thiserror = "1"
serde = { version = "1", features = ["derive"] }

[dev-dependencies]
tempfile = "3"
