[package]
name = "redis_h3"
version = "0.1.0"
edition = "2021"
publish = false

[dependencies]
redis-module = "=2.0.8"
regex = "=1.13.1"
