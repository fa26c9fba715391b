[package]
name = "threaded_number_generator_rs"
version = "0.1.0"
edition = "2021"
publish = false

[dependencies]
rdrand = "0.8"
rand_core = "0.6"
raw-cpuid = "*"
crossbeam-utils = "0.8"
