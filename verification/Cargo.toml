[package]
name = "guarden"
version = "0.1.0"
edition = "2021"
publish = false

[dependencies]
syn = { version = "2", features = ["full", "parsing", "printing"] }
proc-macro2 = "1"
tokio = { version = "1", features = ["rt"] }
futures-core = "0.3"
