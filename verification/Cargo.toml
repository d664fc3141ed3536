[package]
name = "warp_json_rpc"
version = "0.1.0"
edition = "2021"
publish = false

[dependencies]
futures = "0.3"
http = "0.2"
hyper = "0.14"
warp = "0.3"
