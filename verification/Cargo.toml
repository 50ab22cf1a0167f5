[package]
name = "tradingview_client"
version = "0.1.0"
edition = "2021"
publish = false

[dependencies]
miniserde = "=0.1.46"
async-executor = "*"
async-io = "*"
async-lock = "*"
async-trait = "*"
futures-lite = "*"
http = "*"
log = "*"
env_logger = "*"
dotenvy = "*"
simple-error = "*"
time = { version = "*", features = ["formatting", "macros"] }
