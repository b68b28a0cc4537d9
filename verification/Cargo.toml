[package]
name = "nobodywho"
version = "0.1.0"
edition = "2021"
publish = false

[dependencies]
llama-cpp-2 = "*"
tracing = "0.1"
