[package]
name = "yosys_netlist"
version = "0.1.0"
edition = "2021"
publish = false

[dependencies]
serde_json = { version = "1", features = ["preserve_order"] }
serde_path_to_error = "0.1"
serde = { version = "1", features = ["derive"] }
serde-aux = "4"
log = "0.4"
pretty_env_logger = "0.5"
