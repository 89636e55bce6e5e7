[package]
name = "nasadem"
version = "0.1.0"
edition = "2021"
publish = false

[dependencies]
byteorder = "1"
geo-types = "0.7"
