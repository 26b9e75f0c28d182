[package]
name = "msf_ffi"
version = "0.1.0"
edition = "2021"
publish = false

[dependencies]
security-framework = { version = "=3.7.0", features = ["OSX_10_15", "sync-keychain", "job-bless", "macos-12"] }
security-framework-sys = "=2.17.0"
core-foundation = "=0.10.1"
libc = "=0.2.191"
napi = "=3.16.1"
napi-derive = "=3.7.0"
