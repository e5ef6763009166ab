[package]
name = "async-global-executor"
version = "1.4.3"
edition = "2021"
publish = false

[dependencies]
num_cpus = "1"
async-executor = "1"
async-io = "1"
async-channel = "1"
async-mutex = "1"
futures-lite = "1"
once_cell = "1"
async-trait = "0.1"
executor-trait = "1"
blocking = "1"
