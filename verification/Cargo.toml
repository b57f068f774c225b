[package]
name = "idna_adapter"
version = "0.1.0"
edition = "2021"
publish = false

[dependencies]
idna_mapping = "1"
unicode-bidi = "0.3"
unicode-joining-type = "1"
unicode-normalization = "0.1"
