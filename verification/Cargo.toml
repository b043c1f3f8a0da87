[package]
name = "tego"
version = "0.1.0"
edition = "2021"
publish = false

[dependencies]
anyhow = "=1.0.104"
data-encoding = "=2.11.1"
time = { version = "=0.3.55", features = ["formatting", "macros"] }
which = "=8.0.6"
tor-interface = { version = "=0.6.8", features = ["legacy-tor-provider"] }
