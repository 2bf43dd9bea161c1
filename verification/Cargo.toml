[package]
name = "handler_node"
version = "0.1.0"
edition = "2021"
publish = false

[dependencies]
log = "=0.4.34"
nanomsg = "=0.7.2"
