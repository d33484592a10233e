[package]
name = "jairika"
version = "0.1.0"
edition = "2021"
publish = false

[dependencies]
surrealkv = "0.3"
