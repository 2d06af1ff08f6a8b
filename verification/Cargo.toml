[package]
name = "histdb_skim"
version = "0.8.6"
edition = "2021"
publish = false

[dependencies]
chrono = "0.4"
humantime = "2"
textwrap = "0.16"
skim = "0.10"
rusqlite = "0.28"

[dev-dependencies]
regex = "1"
