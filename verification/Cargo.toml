[package]
name = "axvisor_api"
version = "0.1.0"
edition = "2021"
publish = false

[dependencies]
proc-macro2 = { version = "=1.0.107", features = ["span-locations"] }
syn = "=2.0.119"
proc-macro-crate = "=3.5.0"
crate_interface = "=0.3.0"
memory_addr = "=0.4.1"
axaddrspace = "=0.2.0"
