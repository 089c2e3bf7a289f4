[package]
name = "dsl_sql"
version = "0.1.0"
edition = "2021"
publish = false

[dependencies]
sqlparser = "=0.51.0"
pg_query = "=6.2.1"
serde = { version = "=1.0.229", features = ["derive"] }
serde_json = "=1.0.154"
text-size = { version = "=1.1.1", features = ["serde"] }
thiserror = "=1.0.69"
