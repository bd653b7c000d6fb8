[package]
name = "lib_roblox"
version = "0.1.0"
edition = "2021"
publish = false

[dependencies]
rbx_dom_weak = "2"
rbx_reflection = "4"
rbx_reflection_database = "0.2"
