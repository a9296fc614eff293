[package]
name = "exifmap"
version = "0.1.0"
edition = "2021"
publish = false

[dependencies]
clap = "=2.34.0"
env_logger = "=0.11.11"
failure = "=0.1.8"
geojson = "=0.24.2"
gexiv2-sys = "=1.4.0"
libc = "=0.2.191"
log = "=0.4.34"
magick_rust = "=2.1.1"
rayon = "=1.12.0"
rexiv2 = "=0.10.0"
serde_json = "=1.0.154"
walkdir = "=2.5.0"
