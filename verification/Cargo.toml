[package]
name = "lp_core"
version = "0.1.0"
edition = "2021"
publish = false

[dependencies]
serde = "=1.0.229"
allocator-api2 = "=0.2.21"
