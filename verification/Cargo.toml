[package]
name = "gpio_chardev"
version = "0.1.0"
edition = "2021"
publish = false

[dependencies]
gpiod-core = "*"
tokio = { version = "1", features = ["fs", "io-util", "rt", "net"] }
anyhow = "1"
structopt = { version = "0.3", features = ["paw"] }
paw = "1"
