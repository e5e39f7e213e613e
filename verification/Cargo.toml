[package]
name = "pulr"
version = "0.1.0"
edition = "2021"
publish = false

[dependencies]
argparse = "*"
chrono = "*"
colored = "*"
ieee754 = "*"
plctag = "*"
rmodbus = "*"
serde = { version = "*", features = ["derive"] }
serde_json = "*"
serde_yaml = "*"
snmp = "*"
