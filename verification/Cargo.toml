[package]
name = "hdfs3"
version = "0.1.0"
edition = "2021"
publish = false

[dependencies]
lazy_static = "1.4"
libc = "0.2"
log = "0.4"
thiserror = "1.0"
