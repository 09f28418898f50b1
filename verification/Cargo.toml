[package]
name = "anahata"
version = "0.1.0"
edition = "2021"
publish = false

[dependencies]
claxon = "*"
crossbeam-channel = "*"
rtrb = "*"
nats = "*"
jack = "*"
memmap2 = "*"
symphonia = "*"
rayon = "*"
