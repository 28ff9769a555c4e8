[package]
name = "mcauth"
version = "0.1.0"
edition = "2021"
publish = false

[dependencies]
rand = "0.8"
serenity = "0.11"
tokio = { version = "1", features = ["rt-multi-thread", "macros", "time"] }
tokio-postgres = "0.7"
bb8 = "0.8"
bb8-postgres = "0.8"
futures = "0.3"
async-std = "1"
async-trait = "0.1"
dotenvy = "0.15"
