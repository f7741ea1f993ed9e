[package]
name = "column_gadget"
version = "0.1.0"
edition = "2021"
publish = false

[dependencies]
bellperson = { version = "=0.27.0", default-features = false, features = ["groth16"] }
blstrs = "=0.7.1"
ff = "=0.13.1"
filecoin-hashers = { version = "=14.1.0", default-features = false, features = ["poseidon"] }
neptune = "=11.0.0"
