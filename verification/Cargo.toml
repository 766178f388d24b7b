[package]
name = "example_proof_lib"
version = "0.1.0"
edition = "2021"
publish = false

[dependencies]
clap = { version = "4", features = ["derive"] }
dotenv = "0.15"
hex = "0.4"
sp1-zkvm = "4"

[dev-dependencies]
alloy-sol-types = "0.8"
