[package]
name = "dijo"
version = "0.1.0"
edition = "2021"
publish = false

[dependencies]
chrono = { version = "0.4", features = ["serde"] }
clap = "2.33"
cursive = { version = "0.17", default-features = false, features = ["termion-backend"] }
directories = "2.0"
erased-serde = "0.3"
lazy_static = "1.4"
notify = "4.0"
serde = { version = "1.0", features = ["derive"] }
serde_json = "1.0"
toml = "0.5"
typetag = "0.1"
