//! Models and catalogs as a project writes them, and the relations that they get.

use catalog_relation::adapter::AdapterType;
use catalog_relation::catalogs::{
    CatalogSpecV2View, DbtCatalogsV2View, PlatformBlock, V2CatalogType,
};
use catalog_relation::model::{ConfigEntry, Model, NamedSection, Section};
use catalog_relation::relation::{CatalogRelation, CatalogType, ICEBERG_TABLE_FORMAT};
use catalog_relation::v2::{from_model_config_and_catalogs_v2, ProjectContext};

/// A value in a model's configuration.
#[derive(Clone, Copy)]
enum Json {
    Text(&'static str),
    Flag(bool),
    Number(u32),
}

use Json::{Flag, Number, Text};

fn entry(key: &str, value: Json) -> ConfigEntry {
    let text = match value {
        Text(s) => s.to_string(),
        Flag(b) => b.to_string(),
        Number(n) => n.to_string(),
    };
    let flag = match text.as_str() {
        "true" => Ok(Some(true)),
        "false" => Ok(Some(false)),
        _ => Err(format!("{key} is no flag")),
    };
    ConfigEntry { key: key.to_string(), text, flag }
}

fn entries(config: Vec<(&str, Json)>) -> Vec<ConfigEntry> {
    config.into_iter().map(|(key, value)| entry(key, value)).collect()
}

fn section(config: Vec<(&str, Json)>) -> Section {
    Section { entries: entries(config), adapter_properties: None }
}

fn adapter_type_to_attr(adapter_type: AdapterType) -> String {
    match adapter_type {
        AdapterType::Snowflake => "snowflake_attr".to_string(),
        AdapterType::Bigquery => "bigquery_attr".to_string(),
        AdapterType::Databricks => "databricks_attr".to_string(),
        AdapterType::DuckDB => "duckdb_attr".to_string(),
        _ => panic!("Not yet supported"),
    }
}

fn model(adapter_type: AdapterType, config: Vec<(&str, Json)>) -> Model {
    const TOP_LEVEL_KEYS: [&str; 12] = [
        "catalog_name",
        "schema",
        "identifier",
        "database",
        "alias",
        "file_format",
        "location_root",
        "use_uniform",
        "external_volume",
        "auto_refresh",
        "max_data_extension_time_in_days",
        "target_file_size",
    ];
    let (top, own): (Vec<(&str, Json)>, Vec<(&str, Json)>) = config
        .into_iter()
        .partition(|(key, _)| TOP_LEVEL_KEYS.iter().any(|k| k.eq_ignore_ascii_case(key)));
    Model {
        fields: section(top),
        sections: vec![NamedSection {
            name: adapter_type_to_attr(adapter_type),
            section: section(own),
        }],
    }
}

fn model_deprecated_config(config: Vec<(&str, Json)>) -> Model {
    Model {
        fields: section(config.clone()),
        sections: vec![NamedSection { name: "config".to_string(), section: section(config) }],
    }
}

fn load_catalogs_yaml(yaml: &str) -> Result<DbtCatalogsV2View, String> {
    let parsed: dbt_yaml::Value = dbt_yaml::from_str(yaml).expect("valid YAML");
    let catalogs = parsed
        .get("catalogs")
        .and_then(|c| c.as_sequence())
        .expect("a list of catalogs")
        .iter()
        .map(|c| CatalogSpecV2View {
            name: c.get("name").and_then(|v| v.as_str()).expect("a name").to_string(),
            catalog_type: match c.get("type").and_then(|v| v.as_str()).expect("a type") {
                "unity" => V2CatalogType::Unity,
                "hive_metastore" => V2CatalogType::HiveMetastore,
                "horizon" => V2CatalogType::Horizon,
                "glue" => V2CatalogType::Glue,
                "iceberg_rest" => V2CatalogType::IcebergRest,
                "biglake_metastore" => V2CatalogType::BiglakeMetastore,
                "ducklake" => V2CatalogType::DuckLake,
                "local_filesystem" => V2CatalogType::LocalFilesystem,
                other => panic!("unknown type {other}"),
            },
            table_format: c
                .get("table_format")
                .and_then(|v| v.as_str())
                .expect("a table format")
                .to_string(),
            config: c
                .get("config")
                .and_then(|v| v.as_mapping())
                .expect("a config")
                .iter()
                .map(|(platform, block)| PlatformBlock {
                    platform: platform.as_str().expect("a platform").to_string(),
                    block: block.as_mapping().expect("a block").clone(),
                })
                .collect(),
        })
        .collect();
    Ok(DbtCatalogsV2View { catalogs })
}

fn context() -> ProjectContext {
    ProjectContext {
        databricks_default: CatalogRelation::default_catalog_relation_duckdb(),
        bigquery_default: CatalogRelation::default_catalog_relation_duckdb(),
        without_catalogs_yml: Ok(CatalogRelation::default_catalog_relation_duckdb()),
        external_volume: None,
    }
}

#[test]
fn databricks_v2_unity_catalog_builds_relation() {
    let catalogs = load_catalogs_yaml(
        r#"
catalogs:
  - name: UC
    type: unity
    table_format: iceberg
    config:
      databricks:
        file_format: delta
        use_uniform: true
"#,
    );
    let conf = vec![("catalog_name", Text("UC"))];
    let ms = [
        model(AdapterType::Databricks, conf.clone()),
        model_deprecated_config(conf),
    ];

    for m in ms {
        let r = from_model_config_and_catalogs_v2(
            AdapterType::Databricks,
            &m,
            &catalogs,
            context(),
        )
        .unwrap();

        assert_eq!(r.catalog_name.as_deref(), Some("UC"));
        assert!(r.integration_name.is_none());
        assert_eq!(r.catalog_type, "unity");
        assert_eq!(r.table_format, "iceberg");
        assert_eq!(r.file_format.as_deref(), Some("delta"));
    }
}

#[test]
fn databricks_v2_unity_catalog_builds_relation_parquet_managed_iceberg() {
    let catalogs = load_catalogs_yaml(
        r#"
catalogs:
  - name: UC
    type: unity
    table_format: iceberg
    config:
      databricks:
        file_format: parquet
"#,
    );
    let conf = vec![("catalog_name", Text("UC"))];
    let ms = [
        model(AdapterType::Databricks, conf.clone()),
        model_deprecated_config(conf),
    ];

    for m in ms {
        let r = from_model_config_and_catalogs_v2(
            AdapterType::Databricks,
            &m,
            &catalogs,
            context(),
        )
        .unwrap();

        assert_eq!(r.catalog_type, "unity");
        assert_eq!(r.file_format.as_deref(), Some("parquet"));
    }
}

#[test]
fn databricks_v2_unity_model_override_rejects_invalid_combo() {
    let catalogs = load_catalogs_yaml(
        r#"
catalogs:
  - name: UC
    type: unity
    table_format: iceberg
    config:
      databricks:
        file_format: parquet
"#,
    );
    let conf = vec![("catalog_name", Text("UC")), ("file_format", Text("parquet")), ("use_uniform", Flag(true))];
    let ms = [
        model(AdapterType::Databricks, conf.clone()),
        model_deprecated_config(conf),
    ];

    for m in ms {
        let err = from_model_config_and_catalogs_v2(
            AdapterType::Databricks,
            &m,
            &catalogs,
            context(),
        )
        .unwrap_err();

        assert!(
            err.message
                .contains("Databricks v2 unity use_uniform: true requires file_format: delta")
        );
    }
}

#[test]
fn databricks_v2_unity_model_override_rejects_delta_without_use_uniform() {
    let catalogs = load_catalogs_yaml(
        r#"
catalogs:
  - name: UC
    type: unity
    table_format: iceberg
    config:
      databricks:
        file_format: delta
        use_uniform: true
"#,
    );
    let conf = vec![("catalog_name", Text("UC")), ("use_uniform", Flag(false))];
    let ms = [
        model(AdapterType::Databricks, conf.clone()),
        model_deprecated_config(conf),
    ];

    for m in ms {
        let err = from_model_config_and_catalogs_v2(
            AdapterType::Databricks,
            &m,
            &catalogs,
            context(),
        )
        .unwrap_err();

        assert!(err.message.contains(
            "Databricks v2 unity use_uniform: false (or unset) requires file_format: parquet"
        ));
    }
}

#[test]
fn databricks_v2_hive_metastore_allows_hudi() {
    let catalogs = load_catalogs_yaml(
        r#"
catalogs:
  - name: HMS
    type: hive_metastore
    table_format: default
    config:
      databricks:
        file_format: hudi
"#,
    );
    let conf = vec![("catalog_name", Text("HMS"))];
    let ms = [
        model(AdapterType::Databricks, conf.clone()),
        model_deprecated_config(conf),
    ];

    for m in ms {
        let r = from_model_config_and_catalogs_v2(
            AdapterType::Databricks,
            &m,
            &catalogs,
            context(),
        )
        .unwrap();

        assert_eq!(r.catalog_name.as_deref(), Some("HMS"));
        assert_eq!(r.catalog_type, "hive_metastore");
        assert_eq!(r.table_format, "default");
        assert_eq!(r.file_format.as_deref(), Some("hudi"));
    }
}

#[test]
fn v2_rejects_model_adapter_properties() {
    let catalogs = load_catalogs_yaml(
        r#"
catalogs:
  - name: UC
    type: unity
    table_format: iceberg
    config:
      databricks:
        file_format: delta
        use_uniform: true
"#,
    );
    let model = Model {
        fields: section(vec![("catalog_name", Text("UC"))]),
        sections: vec![NamedSection {
            name: "databricks_attr".to_string(),
            section: Section {
                entries: vec![],
                adapter_properties: Some(entries(vec![("location_root", Text("s3://bucket/path"))])),
            },
        }],
    };

    let err =
        from_model_config_and_catalogs_v2(AdapterType::Databricks, &model, &catalogs, context())
            .unwrap_err();

    assert!(
        err.message.contains("catalogs.yml v2 supports top-level model overrides only")
    );
}

#[test]
fn bigquery_v2_biglake_catalog_builds_relation() {
    let catalogs = load_catalogs_yaml(
        r#"
catalogs:
  - name: BQ
    type: biglake_metastore
    table_format: iceberg
    config:
      bigquery:
        external_volume: gs://bucket
        file_format: parquet
        base_location_root: root
"#,
    );
    let conf = vec![("catalog_name", Text("BQ")), ("schema", Text("analytics")), ("alias", Text("events"))];
    let ms = [
        model(AdapterType::Bigquery, conf.clone()),
        model_deprecated_config(conf),
    ];

    for m in ms {
        let r = from_model_config_and_catalogs_v2(
            AdapterType::Bigquery,
            &m,
            &catalogs,
            context(),
        )
        .unwrap();

        assert_eq!(r.catalog_name.as_deref(), Some("BQ"));
        assert!(r.integration_name.is_none());
        assert_eq!(r.catalog_type, "biglake_metastore");
        assert_eq!(r.table_format, "iceberg");
        assert_eq!(r.file_format.as_deref(), Some("parquet"));
        assert!(r.external_volume.is_none());
        assert!(r.base_location.is_none());
        assert_eq!(
            r.adapter_properties.get("storage_uri").map(|s| s.as_str()),
            Some("gs://bucket/root/analytics/events")
        );
    }
}

#[test]
fn bigquery_v2_biglake_model_values_override_yaml_values() {
    let catalogs = load_catalogs_yaml(
        r#"
catalogs:
  - name: BQ
    type: biglake_metastore
    table_format: iceberg
    config:
      bigquery:
        external_volume: gs://bucket
        file_format: parquet
        base_location_root: root
"#,
    );
    let conf = vec![("catalog_name", Text("BQ")), ("external_volume", Text("gs://other-bucket")), ("base_location_root", Text("override")), ("base_location_subpath", Text("leaf")), ("schema", Text("analytics")), ("alias", Text("events"))];
    let ms = [
        model(AdapterType::Bigquery, conf.clone()),
        model_deprecated_config(conf),
    ];

    for m in ms {
        let r = from_model_config_and_catalogs_v2(
            AdapterType::Bigquery,
            &m,
            &catalogs,
            context(),
        )
        .unwrap();

        assert_eq!(r.file_format.as_deref(), Some("parquet"));
        assert_eq!(
            r.adapter_properties.get("storage_uri").map(|s| s.as_str()),
            Some("gs://other-bucket/override/analytics/events/leaf")
        );
    }
}

#[test]
fn bigquery_v2_biglake_catalog_connection_id_ok() {
    let catalogs = load_catalogs_yaml(
        r#"
catalogs:
  - name: BQ
    type: biglake_metastore
    table_format: iceberg
    config:
      bigquery:
        external_volume: gs://bucket
        file_format: parquet
        connection_id: cool_connection
"#,
    );
    let conf = vec![("catalog_name", Text("BQ")), ("schema", Text("analytics")), ("alias", Text("events"))];
    let ms = [
        model(AdapterType::Bigquery, conf.clone()),
        model_deprecated_config(conf),
    ];

    for m in ms {
        let r = from_model_config_and_catalogs_v2(
            AdapterType::Bigquery,
            &m,
            &catalogs,
            context(),
        )
        .unwrap();

        assert_eq!(r.catalog_name.as_deref(), Some("BQ"));
        assert!(r.integration_name.is_none());
        assert_eq!(r.catalog_type, "biglake_metastore");
        assert_eq!(r.table_format, "iceberg");
        assert_eq!(r.file_format.as_deref(), Some("parquet"));
        assert!(r.external_volume.is_none());
        assert!(r.base_location.is_none());
        assert_eq!(
            r.adapter_properties
                .get("connection_id")
                .map(|s| s.as_str()),
            Some("cool_connection")
        );
    }
}

#[test]
fn snowflake_v2_unity_catalog_builds_cld_relation() {
    let catalogs = load_catalogs_yaml(
        r#"
catalogs:
  - name: UC
    type: unity
    table_format: iceberg
    config:
      snowflake:
        catalog_database: "MY_CLD"
        auto_refresh: true
"#,
    );
    let conf = vec![("catalog_name", Text("UC")), ("schema", Text("S")), ("identifier", Text("I"))];
    let ms = [
        model(AdapterType::Snowflake, conf.clone()),
        model_deprecated_config(conf),
    ];

    for m in ms {
        let r = from_model_config_and_catalogs_v2(
            AdapterType::Snowflake,
            &m,
            &catalogs,
            context(),
        )
        .unwrap();

        assert_eq!(r.catalog_name.as_deref(), Some("UC"));
        assert!(r.integration_name.is_none());
        assert_eq!(r.catalog_type, CatalogType::SnowflakeIcebergRest.as_str());
        assert_eq!(r.table_format, ICEBERG_TABLE_FORMAT);
        assert_eq!(
            r.adapter_properties
                .get("catalog_database")
                .map(|s| s.as_str()),
            Some("MY_CLD")
        );
    }
}

#[test]
fn snowflake_v2_unity_uses_yaml_catalog_database_over_model_database() {
    let catalogs = load_catalogs_yaml(
        r#"
catalogs:
  - name: UC
    type: unity
    table_format: iceberg
    config:
      snowflake:
        catalog_database: "YAML_DB"
        auto_refresh: false
        max_data_extension_time_in_days: 30
        target_file_size: "16MB"
"#,
    );
    let conf = vec![("catalog_name", Text("UC")), ("database", Text("MODEL_DB")), ("auto_refresh", Flag(true)), ("max_data_extension_time_in_days", Number(7)), ("target_file_size", Text("32MB"))];
    let ms = [
        model(AdapterType::Snowflake, conf.clone()),
        model_deprecated_config(conf),
    ];

    for m in ms {
        let r = from_model_config_and_catalogs_v2(
            AdapterType::Snowflake,
            &m,
            &catalogs,
            context(),
        )
        .unwrap();

        assert_eq!(
            r.adapter_properties
                .get("catalog_database")
                .map(|s| s.as_str()),
            Some("YAML_DB")
        );
        assert_eq!(
            r.adapter_properties.get("auto_refresh").map(|s| s.as_str()),
            Some("true")
        );
        assert_eq!(
            r.adapter_properties
                .get("max_data_extension_time_in_days")
                .map(|s| s.as_str()),
            Some("7")
        );
        assert_eq!(
            r.adapter_properties
                .get("target_file_size")
                .map(|s| s.as_str()),
            Some("32MB")
        );
    }
}

#[test]
fn snowflake_v2_unity_rejects_stubbed_model_fields() {
    let catalogs = load_catalogs_yaml(
        r#"
catalogs:
  - name: UC
    type: unity
    table_format: iceberg
    config:
      snowflake:
        catalog_database: "MY_CLD"
"#,
    );
    let conf = vec![("catalog_name", Text("UC")), ("external_volume", Text("EV"))];
    let ms = [
        model(AdapterType::Snowflake, conf.clone()),
        model_deprecated_config(conf),
    ];

    for m in ms {
        let err = from_model_config_and_catalogs_v2(
            AdapterType::Snowflake,
            &m,
            &catalogs,
            context(),
        )
        .unwrap_err();
        assert!(err.message.contains(
            "Snowflake v2 unity does not support model field 'external_volume' yet."
        ));
    }
}

#[test]
fn snowflake_v2_horizon_transient_false_is_ok() {
    // An inherited/explicit `transient: false` is compatible with Iceberg (which is
    // always non-transient) and must not error.
    let catalogs = load_catalogs_yaml(
        r#"
catalogs:
  - name: my_horizon
    type: horizon
    table_format: iceberg
    config:
      snowflake:
        external_volume: "EV"
"#,
    );
    let conf = vec![("catalog_name", Text("my_horizon")), ("transient", Flag(false))];
    let ms = [
        model(AdapterType::Snowflake, conf.clone()),
        model_deprecated_config(conf),
    ];

    for m in ms {
        let r = from_model_config_and_catalogs_v2(
            AdapterType::Snowflake,
            &m,
            &catalogs,
            context(),
        )
        .unwrap();
        assert_eq!(r.is_transient, Some(false));
    }
}

#[test]
fn snowflake_v2_horizon_transient_true_is_error() {
    let catalogs = load_catalogs_yaml(
        r#"
catalogs:
  - name: my_horizon
    type: horizon
    table_format: iceberg
    config:
      snowflake:
        external_volume: "EV"
"#,
    );
    let conf = vec![("catalog_name", Text("my_horizon")), ("transient", Flag(true))];
    let ms = [
        model(AdapterType::Snowflake, conf.clone()),
        model_deprecated_config(conf),
    ];

    for m in ms {
        let err = from_model_config_and_catalogs_v2(
            AdapterType::Snowflake,
            &m,
            &catalogs,
            context(),
        )
        .unwrap_err();
        assert!(err.message.contains("transient may not be specified for ICEBERG"));
    }
}

#[test]
fn snowflake_v2_unity_transient_false_is_ok() {
    // The snowflake-linked (unity/glue/iceberg_rest) path rejects a `transient: true`
    // like Horizon, but must accept an inherited/explicit `transient: false`.
    let catalogs = load_catalogs_yaml(
        r#"
catalogs:
  - name: UC
    type: unity
    table_format: iceberg
    config:
      snowflake:
        catalog_database: "MY_CLD"
"#,
    );
    let conf = vec![("catalog_name", Text("UC")), ("transient", Flag(false))];
    let ms = [
        model(AdapterType::Snowflake, conf.clone()),
        model_deprecated_config(conf),
    ];

    for m in ms {
        let r = from_model_config_and_catalogs_v2(
            AdapterType::Snowflake,
            &m,
            &catalogs,
            context(),
        )
        .unwrap();
        assert_eq!(r.catalog_type, CatalogType::SnowflakeIcebergRest.as_str());
    }
}

#[test]
fn snowflake_v2_unity_transient_true_is_error() {
    let catalogs = load_catalogs_yaml(
        r#"
catalogs:
  - name: UC
    type: unity
    table_format: iceberg
    config:
      snowflake:
        catalog_database: "MY_CLD"
"#,
    );
    let conf = vec![("catalog_name", Text("UC")), ("transient", Flag(true))];
    let ms = [
        model(AdapterType::Snowflake, conf.clone()),
        model_deprecated_config(conf),
    ];

    for m in ms {
        let err = from_model_config_and_catalogs_v2(
            AdapterType::Snowflake,
            &m,
            &catalogs,
            context(),
        )
        .unwrap_err();
        assert!(err.message.contains("transient may not be specified for ICEBERG"));
    }
}

// ===== DuckDB v2 tests =====

#[test]
fn duckdb_no_catalog_returns_default() {
    // DuckDB with no catalog_name should return a default relation
    // We need *some* catalogs.yml for the v2 path, but DuckDB with no
    // catalog_name should early-exit before looking it up.
    let catalogs = load_catalogs_yaml(
        r#"
catalogs:
  - name: my_rest
    type: iceberg_rest
    table_format: iceberg
    config:
      duckdb:
        endpoint: "https://rest.example.com"
"#,
    );
    let conf: Vec<(&str, Json)> = vec![];
    let m = model(AdapterType::DuckDB, conf);

    let r =
        from_model_config_and_catalogs_v2(AdapterType::DuckDB, &m, &catalogs, context()).unwrap();

    assert!(r.catalog_name.is_none());
    assert!(r.integration_name.is_none());
    assert_eq!(r.catalog_type, "duckdb");
    assert_eq!(r.table_format, "default");
    assert!(r.file_format.is_none());
    assert!(r.adapter_properties.is_empty());
}

#[test]
fn duckdb_catalog_name_without_catalogs_yml_errors() {
    // catalog_name specified but no matching catalog in catalogs.yml -> error
    let catalogs = load_catalogs_yaml(
        r#"
catalogs:
  - name: other_catalog
    type: glue
    table_format: iceberg
    config:
      duckdb:
        endpoint: "https://glue.example.com"
"#,
    );
    let conf = vec![("catalog_name", Text("nonexistent"))];
    let m = model(AdapterType::DuckDB, conf);

    let err = from_model_config_and_catalogs_v2(AdapterType::DuckDB, &m, &catalogs, context())
        .unwrap_err();

    assert!(err.message.contains("Catalog 'nonexistent' not found in catalogs.yml"));
}

#[test]
fn duckdb_v2_glue_catalog_builds_relation() {
    let catalogs = load_catalogs_yaml(
        r#"
catalogs:
  - name: my_glue
    type: glue
    table_format: iceberg
    config:
      duckdb:
        endpoint: "https://glue.example.com"
        secret: "my_secret"
        attach_as: "glue_db"
"#,
    );
    let conf = vec![("catalog_name", Text("my_glue"))];
    let m = model(AdapterType::DuckDB, conf);

    let r =
        from_model_config_and_catalogs_v2(AdapterType::DuckDB, &m, &catalogs, context()).unwrap();

    assert_eq!(r.catalog_name.as_deref(), Some("my_glue"));
    assert!(r.integration_name.is_none());
    assert_eq!(r.catalog_type, "glue");
    assert_eq!(r.table_format, ICEBERG_TABLE_FORMAT);
    assert!(r.file_format.is_none());
    assert_eq!(
        r.adapter_properties.get("endpoint").map(|s| s.as_str()),
        Some("https://glue.example.com")
    );
    assert_eq!(
        r.adapter_properties.get("secret").map(|s| s.as_str()),
        Some("my_secret")
    );
    assert_eq!(
        r.adapter_properties
            .get("attached_database")
            .map(|s| s.as_str()),
        Some("glue_db")
    );
}

#[test]
fn duckdb_v2_iceberg_rest_catalog_builds_relation() {
    let catalogs = load_catalogs_yaml(
        r#"
catalogs:
  - name: my_rest
    type: iceberg_rest
    table_format: iceberg
    config:
      duckdb:
        endpoint: "https://rest.example.com"
"#,
    );
    let conf = vec![("catalog_name", Text("my_rest"))];
    let m = model(AdapterType::DuckDB, conf);

    let r =
        from_model_config_and_catalogs_v2(AdapterType::DuckDB, &m, &catalogs, context()).unwrap();

    assert_eq!(r.catalog_name.as_deref(), Some("my_rest"));
    assert_eq!(r.catalog_type, "iceberg_rest");
    assert_eq!(r.table_format, ICEBERG_TABLE_FORMAT);
    assert_eq!(
        r.adapter_properties.get("endpoint").map(|s| s.as_str()),
        Some("https://rest.example.com")
    );
    // When no attach_as, alias defaults to catalog_name
    assert_eq!(
        r.adapter_properties
            .get("attached_database")
            .map(|s| s.as_str()),
        Some("my_rest")
    );
    // No secret specified
    assert!(!r.adapter_properties.contains_key("secret"));
}

#[test]
fn duckdb_v2_glue_catalog_builds_relation_with_endpoint_type() {
    let catalogs = load_catalogs_yaml(
        r#"
catalogs:
  - name: my_glue
    type: glue
    table_format: iceberg
    config:
      duckdb:
        endpoint_type: "GLUE"
        warehouse: "123456789012"
        attach_as: "glue_db"
"#,
    );
    let conf = vec![("catalog_name", Text("my_glue"))];
    let m = model(AdapterType::DuckDB, conf);

    let r =
        from_model_config_and_catalogs_v2(AdapterType::DuckDB, &m, &catalogs, context()).unwrap();

    assert_eq!(
        r.adapter_properties
            .get("endpoint_type")
            .map(|s| s.as_str()),
        Some("GLUE")
    );
    assert_eq!(
        r.adapter_properties.get("warehouse").map(|s| s.as_str()),
        Some("123456789012")
    );
    assert!(!r.adapter_properties.contains_key("endpoint"));
    assert_eq!(
        r.adapter_properties
            .get("attached_database")
            .map(|s| s.as_str()),
        Some("glue_db")
    );
}

#[test]
fn duckdb_v2_unsupported_catalog_type_errors() {
    let catalogs = load_catalogs_yaml(
        r#"
catalogs:
  - name: my_horizon
    type: horizon
    table_format: iceberg
    config:
      snowflake:
        external_volume: "EV"
"#,
    );
    let conf = vec![("catalog_name", Text("my_horizon"))];
    let m = model(AdapterType::DuckDB, conf);

    let err = from_model_config_and_catalogs_v2(AdapterType::DuckDB, &m, &catalogs, context())
        .unwrap_err();

    assert!(
        err.message.contains(
            "DuckDB v2 mapping supports only 'glue', 'iceberg_rest', 'ducklake', and 'local_filesystem'"
        )
    );
}

#[test]
fn duckdb_v2_local_filesystem_builds_relation() {
    let catalogs = load_catalogs_yaml(
        r#"
catalogs:
  - name: local_files
    type: local_filesystem
    table_format: default
    config:
      duckdb:
        root_path: "data/local_files"
        file_format: csv
"#,
    );
    let conf = vec![("catalog_name", Text("local_files"))];
    let m = model(AdapterType::DuckDB, conf);

    let r =
        from_model_config_and_catalogs_v2(AdapterType::DuckDB, &m, &catalogs, context()).unwrap();

    assert_eq!(r.catalog_name.as_deref(), Some("local_files"));
    assert_eq!(r.catalog_type, "local_filesystem");
    assert_eq!(r.table_format, "DEFAULT");
    assert_eq!(r.file_format.as_deref(), Some("csv"));
    assert_eq!(
        r.adapter_properties
            .get("external_root")
            .map(|s| s.as_str()),
        Some("data/local_files")
    );
}

#[test]
fn duckdb_v2_catalog_name_none_returns_default() {
    // DuckDB with catalog_name = "none" should return default
    let catalogs = load_catalogs_yaml(
        r#"
catalogs:
  - name: my_rest
    type: iceberg_rest
    table_format: iceberg
    config:
      duckdb:
        endpoint: "https://rest.example.com"
"#,
    );
    let conf = vec![("catalog_name", Text("none"))];
    let m = model(AdapterType::DuckDB, conf);

    let r =
        from_model_config_and_catalogs_v2(AdapterType::DuckDB, &m, &catalogs, context()).unwrap();

    assert!(r.catalog_name.is_none());
    assert_eq!(r.catalog_type, "duckdb");
    assert_eq!(r.table_format, "default");
}

// ===== DuckLake v2 tests =====

#[test]
fn duckdb_v2_ducklake_builds_relation() {
    let catalogs = load_catalogs_yaml(
        r#"
catalogs:
  - name: my_lake
    type: ducklake
    table_format: default
    config:
      duckdb:
        metadata_path: "metadata.ducklake"
"#,
    );
    let conf = vec![("catalog_name", Text("my_lake"))];
    let m = model(AdapterType::DuckDB, conf);

    let r =
        from_model_config_and_catalogs_v2(AdapterType::DuckDB, &m, &catalogs, context()).unwrap();

    assert_eq!(r.catalog_name.as_deref(), Some("my_lake"));
    assert_eq!(r.catalog_type, "ducklake");
    assert_eq!(r.table_format, "DEFAULT");
    assert_eq!(
        r.adapter_properties
            .get("metadata_path")
            .map(|s| s.as_str()),
        Some("metadata.ducklake")
    );
    assert_eq!(
        r.adapter_properties
            .get("catalog_linked_database")
            .map(|s| s.as_str()),
        Some("my_lake")
    );
    assert!(!r.adapter_properties.contains_key("data_path"));
}

#[test]
fn duckdb_v2_ducklake_with_data_path() {
    let catalogs = load_catalogs_yaml(
        r#"
catalogs:
  - name: my_lake
    type: ducklake
    table_format: default
    config:
      duckdb:
        metadata_path: "metadata.ducklake"
        data_path: "s3://bucket/data/"
        attach_as: "lake"
"#,
    );
    let conf = vec![("catalog_name", Text("my_lake"))];
    let m = model(AdapterType::DuckDB, conf);

    let r =
        from_model_config_and_catalogs_v2(AdapterType::DuckDB, &m, &catalogs, context()).unwrap();

    assert_eq!(r.catalog_name.as_deref(), Some("my_lake"));
    assert_eq!(r.catalog_type, "ducklake");
    assert_eq!(
        r.adapter_properties
            .get("metadata_path")
            .map(|s| s.as_str()),
        Some("metadata.ducklake")
    );
    assert_eq!(
        r.adapter_properties.get("data_path").map(|s| s.as_str()),
        Some("s3://bucket/data/")
    );
    assert_eq!(
        r.adapter_properties
            .get("catalog_linked_database")
            .map(|s| s.as_str()),
        Some("lake")
    );
}
