[package]
name = "substrate_archive"
version = "0.1.0"
edition = "2021"
publish = false

[dependencies]
num_cpus = "=1.17.0"
hashbrown = "=0.14.5"
url = "=2.5.8"
sp-crypto-hashing = "=0.1.0"
primitive-types = "=0.13.1"
flume = "=0.10.14"
jod-thread = "=0.1.2"
easy-parallel = "=3.3.1"
smol = "=1.3.0"
futures = "=0.3.34"
log = "=0.4.34"
serde = { version = "=1.0.229", features = ["derive"] }
