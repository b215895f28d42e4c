[package]
name = "announcement"
version = "0.1.0"
edition = "2021"
publish = false

[dependencies]
atomic = "0.5"
