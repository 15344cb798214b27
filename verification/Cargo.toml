[package]
name = "input_recorder"
version = "0.1.0"
edition = "2021"
publish = false

[dependencies]
serde_json = "1"
clap = { version = "4", default-features = false, features = ["std", "derive", "help", "usage"] }
rdev = { version = "0.5", features = ["unstable_grab"] }
threadpool = "1"
num_cpus = "1"
