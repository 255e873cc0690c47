[package]
name = "recipes"
version = "0.1.0"
edition = "2021"
publish = false

[dependencies]
aws-sdk-bedrockruntime = "=1.151.0"
clap = { version = "=3.2.25", features = ["derive"] }
log = "=0.4.34"
shellfish = { version = "=0.10.1", features = ["async", "clap"] }
stderrlog = "=0.6.0"
tokio = { version = "=1.54.1", features = ["full"] }
