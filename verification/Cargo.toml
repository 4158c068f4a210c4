[package]
name = "giganto_proc_macro"
version = "0.1.0"
edition = "2021"
publish = false

[dependencies]
deluxe = "*"
proc-macro2 = "1"
quote = "1"
syn = "2"
