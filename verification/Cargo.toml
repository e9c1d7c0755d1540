[package]
name = "can_id_reg"
version = "0.1.0"
edition = "2021"
publish = false

[dependencies]
embedded-can = "0.4"
