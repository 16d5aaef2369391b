[package]
name = "astronome"
version = "0.1.0"
edition = "2021"
publish = false

[dependencies]
futures-util = "0.3"
open = "5"
i18n-embed = { version = "0.14", features = ["fluent-system", "desktop-requester"] }
i18n-embed-fl = "0.8"
rust-embed = "8"
