[package]
name = "pcapng_writer"
version = "0.1.0"
edition = "2021"
publish = false

[dependencies]
byteorder = "=1.5.0"

[dev-dependencies]
pcapng = "=1.0.0"
nom = "=2.2.1"
