[package]
name = "ods_builder_gen"
version = "0.1.0"
edition = "2021"
publish = false

[dependencies]
convert_case = "=0.12.0"
proc-macro2 = "*"

[dev-dependencies]
syn = { version = "=3.0.6", features = ["full"] }
