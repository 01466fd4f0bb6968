[package]
name = "pem_keys"
version = "0.1.0"
edition = "2021"
publish = false

[dependencies]
pem = "3"
rsa = "0.9"
simple_asn1 = "0.6"
