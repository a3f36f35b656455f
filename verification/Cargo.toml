[package]
name = "denv"
version = "0.1.0"
edition = "2021"
publish = false

[dependencies]
clap = { version = "*", features = ["derive"] }
exitcode = "*"
flate2 = "*"
hex = "*"
home = "*"
jsonschema = "*"
reqwest = { version = "*", default-features = false, features = ["blocking", "rustls-tls"] }
serde_json = "*"
serde_yaml = "*"
sha2 = "*"
tar = "*"
zip = { version = "*", default-features = false, features = ["deflate"] }
