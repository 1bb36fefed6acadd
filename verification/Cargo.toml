[package]
name = "zero_sugar"
version = "0.1.0"
edition = "2021"
publish = false

[dependencies]
oxc_allocator = "0.6"
oxc_ast = "0.6"
oxc_codegen = "0.6"
oxc_parser = "0.6"
oxc_span = "0.6"
oxc_syntax = "0.6"
wasm-bindgen = "0.2"
