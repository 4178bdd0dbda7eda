[package]
name = "rmk"
version = "0.1.0"
edition = "2021"
publish = false

[dependencies]
defmt = "*"
embassy-sync = "*"
embedded-hal = "*"
proc-macro2 = "*"
quote = "*"
