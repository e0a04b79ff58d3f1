[package]
name = "rocksdb_utils_lookup"
version = "0.1.0"
edition = "2021"
publish = false

[dependencies]
rocksdb = { version = "*", features = ["multi-threaded-cf"] }
thiserror = "*"
tracing = "*"

[dev-dependencies]
temp_testdir = "*"
