[package]
name = "node_id"
version = "0.1.0"
edition = "2021"
publish = false

[dependencies]
ethereum-types = { version = "*", default-features = false, features = ["std", "rand"] }
tiny-keccak = { version = "2", features = ["keccak"] }
