[package]
name = "ffs"
version = "0.1.0"
edition = "2021"
publish = false

[dependencies]
toml = "=0.8.23"
hcloud = "=0.26.0"
ssh2 = "=0.9.6"
tokio = { version = "=1.54.1", features = ["macros", "rt-multi-thread"] }
clap = { version = "=4.6.7", features = ["derive"] }
async-trait = "=0.1.92"
