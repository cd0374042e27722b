[package]
name = "product_card"
version = "0.1.0"
edition = "2021"
publish = false

[dependencies]
yew = "=0.17.4"
yew-router = "=0.14.0"
