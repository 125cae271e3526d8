[package]
name = "listing_table"
version = "0.1.0"
edition = "2021"
publish = false

[dependencies]
arrow = { version = "9", default-features = false }
async-trait = "0.1"
futures = "0.3"
num_cpus = "1"
