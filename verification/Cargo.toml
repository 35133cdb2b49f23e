[package]
name = "fizzerb"
version = "0.1.0"
edition = "2021"
publish = false

[dependencies]
im = "15"
glam = "*"
rayon = "1"
fastrand = "*"
hound = "3"
serde = { version = "1", features = ["derive"] }
serde_json = "1"
clap = { version = "4", features = ["derive"] }
thiserror = "*"
tracing = "0.1"
tracing-subscriber = { version = "0.3", features = ["env-filter"] }
log = "0.4"
druid = { version = "0.8", features = ["im", "serde"] }
cairo-rs = "*"
