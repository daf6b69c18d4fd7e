[package]
name = "ccomp"
version = "0.1.0"
edition = "2021"
publish = false

[dependencies]
clap = { version = "4", features = ["derive"] }
colog = "*"
indexmap = "2"
lalrpop-util = { version = "*", features = ["lexer"] }
log = "0.4"
target-lexicon = "*"
tempfile = "3"
thiserror = "*"
