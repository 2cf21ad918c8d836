[package]
name = "netclient"
version = "0.1.0"
edition = "2021"
publish = false

[dependencies]
bitcode = "=0.6.9"
lz4_flex = "=0.14.0"
steamworks = "=0.13.1"
tangled = "=0.5.0"
bevy_app = "=0.16.1"
bevy_ecs = "=0.16.1"
