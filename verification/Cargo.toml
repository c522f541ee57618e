[package]
name = "sql_dialects"
version = "0.1.0"
edition = "2021"
publish = false

[dependencies]
array_tool = "=1.0.3"
snailquote = "=0.3.1"
teo-runtime = "=0.3.8"

[dev-dependencies]
regex = "=1.13.1"
