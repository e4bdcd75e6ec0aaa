[package]
name = "pop_runtime"
version = "0.1.0"
edition = "2021"
publish = false

[dependencies]
anyhow = { version = "=1.0.104", default-features = false }
frame-support = { version = "=48.1.0", default-features = false }
frame-system = { version = "=48.0.0", default-features = false }
ismp = { version = "=2606.1.0", default-features = false }
log = "=0.4.35"
pallet-assets = { version = "52.0.0", default-features = false }
pallet-contracts = { version = "49.0.0", default-features = false }
pallet-ismp = { version = "=2606.1.0", default-features = false }
sp-core = { version = "=43.0.0", default-features = false }
sp-runtime = { version = "=48.0.0", default-features = false }
sp-weights = { version = "=36.0.0", default-features = false }

[dev-dependencies]
parity-scale-codec = "=3.7.5"
