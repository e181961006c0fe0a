[package]
name = "wgpu_n_body"
version = "0.1.0"
edition = "2021"
publish = false

[dependencies]
wgpu = "0.19"
image = { version = "0.24", default-features = false, features = ["jpeg", "png"] }
rand = "0.8"
rand_distr = "0.4"
cgmath = "0.18"
bytemuck = { version = "1", features = ["derive"] }
futures-intrusive = "0.5"
tokio = { version = "1", features = ["rt-multi-thread", "macros"] }
env_logger = "0.11"
