[package]
name = "hassle-rs"
version = "0.1.0"
edition = "2021"
publish = false

[dependencies]
com = { version = "=0.6.0", features = ["production"] }
libloading = "=0.7.4"
thiserror = "=1.0.69"
widestring = "=0.4.3"
winapi = { version = "=0.3.9", features = ["ntdef", "oleauto", "wtypes"] }
