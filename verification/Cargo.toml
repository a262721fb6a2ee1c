[package]
name = "dyn_fn"
version = "0.1.0"
edition = "2021"
publish = false

[dependencies]
elain = "=0.3.1"
higher-kinded-types = "=0.3.2"

[dev-dependencies]
futures-util = { version = "=0.3.34", default-features = false }
