[package]
name = "filemeta"
version = "0.1.0"
edition = "2021"
publish = false

[dependencies]
chrono = "*"
clap = { version = "*", features = ["derive"] }
tabled = "*"
tree_magic_mini = "*"
users = "*"

[dev-dependencies]
serde_json = "*"
