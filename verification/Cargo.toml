[package]
name = "htmx_form"
version = "0.1.0"
edition = "2021"
publish = false

[dependencies]
mime = "0.3"
serde_urlencoded = "0.7"
serde = "1"
axum = "*"
async-trait = "*"
