[package]
name = "lodestone"
version = "0.1.0"
edition = "2021"
publish = false

[dependencies]
select = "*"
failure = "0.1"
