[package]
name = "hkg"
version = "0.1.0"
edition = "2021"
publish = false

[dependencies]
kuchiki = "0.8"
regex = "1"
url = "2"
chrono = "0.4"
hyper = "0.10"
hyper-native-tls = "0.3"
cancellation = "0.1"
