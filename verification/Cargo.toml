[package]
name = "pg_query_gate"
version = "0.1.0"
edition = "2021"
publish = false

[dependencies]
blake3 = "1"
sqlparser = { version = "0.52.0", features = ["visitor"] }
uuid = "1"
