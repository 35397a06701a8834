[package]
name = "well_field"
version = "0.1.0"
edition = "2021"
publish = false

[dependencies]
convert_case = "=0.12.0"
quote = "*"
syn = "=3.0.6"
