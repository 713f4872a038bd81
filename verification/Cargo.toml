[package]
name = "fiole"
version = "0.1.0"
edition = "2021"
publish = false

[dependencies]
byteorder = "1"
byteview = "*"
fjall = "*"
serde = { version = "1", features = ["derive"] }
serde_json = "1"
postcard = { version = "1", features = ["use-std"] }
facet = "*"
facet-postcard = "*"
facet-msgpack = "*"
rkyv = "*"
