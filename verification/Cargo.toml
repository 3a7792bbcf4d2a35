[package]
name = "mpx_mqtt"
version = "0.1.0"
edition = "2021"
publish = false

[dependencies]
regex = "1"
rust-ini = "*"
rumqttc = "*"
sd-notify = "*"
tokio = { version = "1", features = ["rt-multi-thread", "macros", "sync", "time"] }
