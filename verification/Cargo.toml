[package]
name = "wundergraph"
version = "0.1.0"
edition = "2021"
publish = false

[dependencies]
diesel = "1.4"
juniper = "0.14"
