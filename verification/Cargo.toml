[package]
name = "hbs_render"
version = "0.1.0"
edition = "2021"
publish = false

[dependencies]
anyhow = "1"
clap = "2"
handlebars = "3"
toml = "0.5"
