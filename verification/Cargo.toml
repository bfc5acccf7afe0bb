[package]
name = "fm_xml_explode"
version = "0.1.0"
edition = "2021"
publish = false

[dependencies]
quick-xml = "0.38"
anyhow = "1"
clap = { version = "4", features = ["derive"] }
rayon = "1"
