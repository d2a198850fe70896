[package]
name = "serenity"
version = "0.1.0"
edition = "2021"
publish = false

[dependencies]
arrayvec = { version = "0.7", features = ["serde"] }
bitflags = "2"
bytes = "1"
dashmap = "6"
foldhash = "0.1"
mini-moka = "0.10"
nonmax = "0.5"
reqwest = { version = "0.12", default-features = false }
serde = { version = "1", features = ["derive"] }
small-fixed-array = { version = "*", features = ["serde"] }
to-arraystring = "*"
tokio = { version = "1", features = ["rt", "fs"] }
typesize = { version = "*", default-features = false }

[dev-dependencies]
serde_json = "1"
