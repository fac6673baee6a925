[package]
name = "offsets_parser"
version = "0.1.0"
edition = "2021"
publish = false

[dependencies]
clap = "2"
html-entities = "*"
regex = "1"
