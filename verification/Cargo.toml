[package]
name = "rnsdid_core"
version = "0.1.0"
edition = "2021"
publish = false

[dependencies]
sha2 = "=0.11.0"
solana-program = "=5.1.0"
anchor-lang = "=1.2.1"
anchor-spl = { version = "=1.2.1", features = ["metadata"] }
mpl-bubblegum = "=4.0.0"
