[package]
name = "fsm_governance_engine_lib"
version = "0.1.0"
edition = "2021"
publish = false

[dependencies]
serde = { version = "*", features = ["derive"] }
serde_json = "*"
borsh = { version = "*", features = ["derive"] }
jsonschema = "*"
