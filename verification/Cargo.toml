[package]
name = "jingec"
version = "0.1.0"
edition = "2021"
publish = false

[dependencies]
hashbrown = "*"
swc_core = { version = "*", features = ["ecma_ast", "common"] }
swc_common = "*"
