[package]
name = "disk"
version = "0.1.0"
edition = "2021"
publish = false

[dependencies]
bincode = "1"
bson = { version = "=3.1.0", features = ["serde"] }
directories = "=6.0.0"
flate2 = "=1.1.10"
libc = "*"
memmap2 = "*"
postcard = { version = "*", features = ["use-std"] }
rmp-serde = "*"
ron = "*"
serde = { version = "*", features = ["derive"] }
serde-pickle = "*"
serde_json = "*"
serde_plain = "*"
serde_yaml = "*"
toml_edit = { version = "*", features = ["serde"] }
