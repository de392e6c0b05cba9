[package]
name = "dms_coordinates"
version = "0.1.0"
edition = "2021"
publish = false

[dependencies]
geo-types = "*"
gpx = "*"
initial_conditions = "*"
map_3d = "*"
rust-3d = "*"
serde = { version = "1", features = ["derive"] }
serde_derive = "1"
thiserror = "1"
