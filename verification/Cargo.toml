[package]
name = "artifact_content"
version = "0.1.0"
edition = "2021"
publish = false

[dependencies]
signedsource = "=0.3.0"
