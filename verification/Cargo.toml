[package]
name = "worker"
version = "0.1.0"
edition = "2021"
publish = false

[dependencies]
docopt = "=1.1.1"
hyper = "=0.10.16"
hyper-native-tls = "0.3"
tempdir = "=0.3.7"

[dev-dependencies]
regex = "=1.13.1"
