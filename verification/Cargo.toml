[package]
name = "adbc_snowflake"
version = "0.1.0"
edition = "2021"
publish = false

[dependencies]
adbc_core = "*"
dotenvy = "*"
