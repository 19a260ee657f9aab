[package]
name = "amd_smi_wrapper"
version = "0.2.1"
edition = "2021"
publish = false

[dependencies]
libloading = "0.8"
thiserror = "2"
mockall = "0.13"
