[package]
name = "first_person"
version = "0.1.0"
edition = "2021"
publish = false

[dependencies]
nalgebra = "*"
num = "*"
