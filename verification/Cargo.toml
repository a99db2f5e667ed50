[package]
name = "oxcms_core"
version = "0.1.0"
edition = "2021"
publish = false

[dependencies]
moxcms = "=0.7.11"
multiversion = "=0.9.2"
thiserror = "=2.0.21"
