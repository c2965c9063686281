[package]
name = "todo_app"
version = "0.1.0"
edition = "2021"
publish = false

[dependencies]
dioxus = "0.6"
