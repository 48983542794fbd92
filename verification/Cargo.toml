[package]
name = "ctap_hid_fido2"
version = "0.1.0"
edition = "2021"
publish = false

[dependencies]
ring = "*"
pad = "*"
hidapi = "*"
pcsc = "*"

[dev-dependencies]
serde_cbor = "*"
