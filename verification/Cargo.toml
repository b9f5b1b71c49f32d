[package]
name = "lance_graph"
version = "0.1.0"
edition = "2021"
publish = false

[dependencies]
arrow-schema = "=59.3.0"
datafusion-expr = "=55.2.0"
