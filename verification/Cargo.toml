[package]
name = "phenopacket-builder"
version = "0.1.0"
edition = "2021"
publish = false

[dependencies]
prost-types = "*"
phenopackets = "0.2.2-post2"
