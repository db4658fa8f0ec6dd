[package]
name = "ssdeep"
version = "0.1.0"
edition = "2021"
publish = false

[dependencies]
fuzzyhash = "=0.2.2"
