[package]
name = "schema_visitor"
version = "0.1.0"
edition = "2021"
publish = false

[dependencies]
graphql-tools = "*"
