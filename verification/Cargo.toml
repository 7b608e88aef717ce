[package]
name = "cheap_ruler"
version = "0.4.0"
edition = "2021"

[dependencies]
geo-types = "0.7"
num-traits = "0.2"
