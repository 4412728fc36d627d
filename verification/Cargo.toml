[package]
name = "catalog_relation"
version = "0.1.0"
edition = "2021"
publish = false

[dependencies]
dbt-yaml = "*"
minijinja = "2"
