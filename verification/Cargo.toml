[package]
name = "configcat_openfeature_provider"
version = "0.1.0"
edition = "2021"
publish = false

[dependencies]
async-trait = "*"
configcat = "*"
open-feature = "*"
serde_json = "*"
