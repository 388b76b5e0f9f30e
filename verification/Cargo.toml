[package]
name = "nlon_rust"
version = "0.1.0"
edition = "2021"
publish = false

[dependencies]
polars = { version = "=0.43.1", default-features = false, features = ["csv", "fmt"] }

[dev-dependencies]
regex = "=1.13.1"
