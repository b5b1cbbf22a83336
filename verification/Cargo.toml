[package]
name = "mqtt_verify"
version = "0.1.0"
edition = "2021"
publish = false

[dependencies]
evalexpr = "=11.3.1"
paho-mqtt = "=0.14.0"
futures = "=0.3.34"
async-std = "=1.13.2"
futures-ticker = "=0.0.3"
structopt = "=0.3.26"
