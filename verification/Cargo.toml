[package]
name = "ctap_codec"
version = "0.1.0"
edition = "2021"
publish = false

[dependencies]
p256 = { version = "0.13", default-features = false, features = ["arithmetic"] }
sk-cbor = "0.1"

[dev-dependencies]
rand_core = { version = "0.6", features = ["getrandom"] }
