[package]
name = "private_publication"
version = "0.1.0"
edition = "2021"
publish = false

[dependencies]
hdi = "=0.3.8"
hdk = "=0.2.8"
serde = { version = "=1.0.166", features = ["derive"] }
# Not called: holds rmp at the version that rmp-serde 0.15, which holochain
# decodes with, compiles against; a newer rmp leaves hdi and hdk unbuilt.
rmp = "=0.8.10"
