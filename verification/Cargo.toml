[package]
name = "eclss"
version = "0.1.0"
edition = "2021"
publish = false

[dependencies]
thingbuf = "0.1"
