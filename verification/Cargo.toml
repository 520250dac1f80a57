[package]
name = "xilem_core_auralis"
version = "0.1.0"
edition = "2021"
publish = false

[dependencies]
auralis-signal = "*"
auralis-task = "*"
xilem_core = "*"
