[package]
name = "penplot"
version = "0.1.0"
edition = "2021"
publish = false

[dependencies]
kurbo = "0.8"
structopt = "0.3"
usvg = "0.14"
xmlwriter = "0.1"
