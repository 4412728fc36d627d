# catalog_relation

Where a model's table lives and how it is stored: the relation that a model gets from its
configuration and from version two of `catalogs.yml`, on Databricks, Snowflake, BigQuery and
DuckDB. The library in `src/` is verified with Verus.

- `v2` decides what a model gets: a default, a relation in the catalog that it selects, or an error.
- `databricks`, `snowflake`, `bigquery` and `duckdb` hold each platform's rules. Each reads its
  settings out of the catalog's block, and then builds from plain values.
- `model` looks up a model's fields, `catalogs` a project's catalogs, `yaml` the scalars of a block.
- `relation`, `properties`, `adapter` and `text` hold what these share.
- `laws` states what holds of every relation.

`app/` turns a template value into a model and asks the rest of the project for what the library
does not decide.
