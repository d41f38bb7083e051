[package]
name = "blueachive"
version = "0.1.0"
edition = "2021"
publish = false

[dependencies]
inkling = "*"
anyhow = "*"
macroquad = "*"
rusty_spine = "*"
image = "*"
serde = { version = "*", features = ["derive"] }
serde_yaml = "*"
