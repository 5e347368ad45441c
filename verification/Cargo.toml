[package]
name = "qjs_repl"
version = "0.1.0"
edition = "2021"
publish = false

[dependencies]
clap = { version = "=4.6.7", features = ["derive"] }
rquickjs = { version = "=0.1.7", features = ["loader"] }
rustyline = "=19.0.0"
