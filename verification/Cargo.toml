[package]
name = "blink-solana"
version = "0.1.0"
edition = "2021"
publish = false

[dependencies]
anchor-lang = { version = "=0.30.1", features = ["init-if-needed"] }
anchor-spl = { version = "=0.30.1" }
bytemuck = { version = "=1.25.2", features = ["derive", "min_const_generics"] }
