[package]
name = "krachlicht"
version = "0.1.0"
edition = "2021"
publish = false

[dependencies]
rand = "0.8"
dft = "*"
palette = "*"
rosc = "*"
json = "0.12"
log = "0.4"
env_logger = "*"
clap = { version = "4", features = ["derive"] }
serde = { version = "1", features = ["derive"] }
config-file = "*"
ctrlc = "3"
paho-mqtt = "*"
