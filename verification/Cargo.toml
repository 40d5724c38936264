[package]
name = "ledger_loadgen"
version = "0.1.0"
edition = "2021"
publish = false

[dependencies]
snarkvm = "0.16"
num_cpus = "1"
anyhow = "1"
