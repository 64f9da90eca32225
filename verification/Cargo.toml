[package]
name = "sql_lineage"
version = "0.1.0"
edition = "2021"
publish = false

[dependencies]
sqlparser = "*"
