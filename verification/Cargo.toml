[package]
name = "pyswc"
version = "0.1.0"
edition = "2021"
publish = false

[dependencies]
swc_core = { version = "*", features = ["common", "ecma_ast", "ecma_parser", "ecma_codegen", "ecma_visit"] }
pyo3 = { version = "*", features = ["num-bigint"] }
num-bigint = "0.4"
