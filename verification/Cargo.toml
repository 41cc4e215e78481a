[package]
name = "duckscript_sdk"
version = "0.1.0"
edition = "2021"
publish = false

[dependencies]
duckscript = "*"
fsio = "*"
home = "*"
uname = "*"
suppaftp = "*"
cfg-if = "*"
