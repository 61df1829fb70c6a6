[package]
name = "auction_house"
version = "0.1.0"
edition = "2021"
publish = false

[dependencies]
archway-bindings = "0.2"
cosmwasm-std = "1"
cw2 = "1"
cw-utils = "1"
