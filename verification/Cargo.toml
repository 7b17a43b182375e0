[package]
name = "ocl_stream"
version = "0.1.0"
edition = "2021"
publish = false

[dependencies]
crossbeam-channel = "=0.5.17"
lock_api = "=0.4.14"
num_cpus = "=1.17.0"
ocl = "=0.19.7"
parking_lot = "=0.12.5"
rayon = "*"
