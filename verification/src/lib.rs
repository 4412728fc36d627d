//! Catalog relations from `catalogs.yml` (version two) and a model's configuration.

pub mod adapter;
pub mod bigquery;
pub mod catalogs;
pub mod databricks;
pub mod duckdb;
pub mod fields;
pub mod input_laws;
pub mod laws;
pub mod model;
pub mod outcome_laws;
pub mod properties;
pub mod relation;
pub mod snowflake;
pub mod text;
pub mod text_laws;
pub mod v2;
pub mod yaml;
