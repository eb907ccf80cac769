[package]
name = "full_strm_sync"
version = "0.1.0"
edition = "2021"
publish = false

[dependencies]
aho-corasick = "1"
rayon = "1"
serde = { version = "1", features = ["derive"] }
serde_json = "1"
pyo3 = { version = "0.23", features = ["extension-module"] }
