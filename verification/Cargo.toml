[package]
name = "crabgrab"
version = "0.1.0"
edition = "2021"
publish = false

[dependencies]
bytemuck = "1"
parking_lot = "0.12"
futures = "0.3"
