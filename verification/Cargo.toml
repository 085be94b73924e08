[package]
name = "get-size2"
version = "0.1.0"
edition = "2021"
publish = false

[dependencies]
attribute-derive = "*"
bytes = "*"
chrono = { version = "*", default-features = false }
chrono-tz = "*"
compact_str = "*"
hashbrown = "*"
proc-macro2 = "*"
quote = "*"
smallvec = "*"
syn = "*"
url = "*"
