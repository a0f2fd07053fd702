[package]
name = "rusterizer"
version = "0.1.0"
edition = "2021"
publish = false

[dependencies]
libc = "=0.2.191"
log = "=0.4.34"
env_logger = "=0.11.11"
rspirv = "=0.13.0"
spirv_headers = "=1.5.0"
llvm-sys = { version = "=231.0.1", features = ["no-llvm-linking", "disable-alltargets-init"] }
