[package]
name = "git_rsl"
version = "0.1.0"
edition = "2021"
publish = false

[dependencies]
git2 = "0.18"
rust-crypto = "0.2"
rand = "0.4"
hex = "0.3"
serde = "1"
serde_derive = "1"
serde_json = "1"
gpgme = "*"
clap = "2"
tempdir = "0.3"
tempfile = "3"
fs_extra = "1"

[dev-dependencies]
regex = "1"
