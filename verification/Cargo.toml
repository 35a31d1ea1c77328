[package]
name = "rs_img"
version = "0.1.0"
edition = "2021"
publish = false

[dependencies]
anyhow = "*"
camino = "*"
clap = { version = "*", features = ["derive"] }
dirs = "*"
image = "*"
image_compressor = "*"
inquire = "=0.7.5"
jiff = { version = "*", features = ["tzdb-bundle-always"] }
little_exif = "*"
num_cpus = "*"
owo-colors = "*"
promkit = "=0.4.6"
rayon = "*"
spinoff = "*"
webp = "*"
