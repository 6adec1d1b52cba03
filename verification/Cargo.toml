[package]
name = "zero"
version = "1.0.0"
edition = "2021"
publish = false

[dependencies]
clap = "2.33"
getopts = "0.2"
structopt = "0.3"
