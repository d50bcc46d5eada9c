[package]
name = "stp_pow"
version = "0.1.0"
edition = "2021"
publish = false

[dependencies]
peroxide = { version = "=0.43.1", features = ["parquet"] }
bincode = "=1.3.3"
rustc_apfloat = "*"
libm = "=0.2.16"
bytemuck = "*"
