[package]
name = "random_wallpaper"
version = "0.1.0"
edition = "2021"
publish = false

[dependencies]
heck = "0.5"
notify-rust = "4"
rand_core = { version = "0.6", features = ["getrandom"] }
rand_distr = "0.4"
shellexpand = "3"
tracing = "0.1"
tracing-subscriber = "0.3"
tracing-unwrap = "*"
