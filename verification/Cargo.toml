[package]
name = "js_embed"
version = "0.1.0"
edition = "2021"
publish = false

[dependencies]
anyhow = "1"
deno_ast = { version = "*", features = ["transpiling"] }
ext-php-rs = "*"
futures = "0.3"
tokio = { version = "1", features = ["rt", "rt-multi-thread"] }
url = "2"
