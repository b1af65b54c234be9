[package]
name = "docsite_nav"
version = "0.1.0"
edition = "2021"
publish = false

[dependencies]
dioxus = "=0.4.3"
fermi = "=0.4.3"
dioxus-material-icons = "=1.2.0"
