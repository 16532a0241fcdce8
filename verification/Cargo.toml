[package]
name = "cmake_configs"
version = "0.1.0"
edition = "2021"
publish = false

[dependencies]
ansi_term = "0.12"
getopts = "0.2"
