//! The rules one by one: each error, each default, and the edges.

use catalog_relation::adapter::{AdapterError, AdapterErrorKind, AdapterResult, AdapterType};
use catalog_relation::catalogs::{
    is_valid_databricks_file_format, CatalogSpecV2View, DbtCatalogsV2View, PlatformBlock,
    UniformMode, V2CatalogType, V2FileFormat,
};
use catalog_relation::model::{
    model_catalog_name, parse_model_bool, parse_model_u32,
    reject_unsupported_databricks_hive_v2_model_fields,
    reject_unsupported_snowflake_linked_v2_model_fields, ConfigEntry, Model, NamedSection, Section,
};
use catalog_relation::relation::{
    sanitize_duckdb_identifier, CatalogRelation, CatalogType, DELTA_TABLE_FORMAT,
};
use catalog_relation::v2::{
    from_model_config_and_catalogs_v2, unity_location_root, ProjectContext,
};
use catalog_relation::yaml::{get_yaml_bool, get_yaml_str, get_yaml_u32};

fn entry(key: &str, text: &str) -> ConfigEntry {
    let flag = match text {
        "true" => Ok(Some(true)),
        "false" => Ok(Some(false)),
        "" => Ok(None),
        _ => Err(format!("'{text}' is no flag for {key}")),
    };
    ConfigEntry { key: key.to_string(), text: text.to_string(), flag }
}

fn section(fields: &[(&str, &str)]) -> Section {
    Section {
        entries: fields.iter().map(|(key, text)| entry(key, text)).collect(),
        adapter_properties: None,
    }
}

fn flat(fields: &[(&str, &str)]) -> Model {
    Model { fields: section(fields), sections: vec![] }
}

fn named(name: &str, fields: &[(&str, &str)]) -> NamedSection {
    NamedSection { name: name.to_string(), section: section(fields) }
}

fn mapping(yaml: &str) -> dbt_yaml::Mapping {
    let value: dbt_yaml::Value = dbt_yaml::from_str(yaml).expect("valid YAML");
    value.as_mapping().expect("a mapping").clone()
}

fn catalog(name: &str, kind: V2CatalogType, platform: &str, yaml: &str) -> CatalogSpecV2View {
    CatalogSpecV2View {
        name: name.to_string(),
        catalog_type: kind,
        table_format: "iceberg".to_string(),
        config: vec![PlatformBlock { platform: platform.to_string(), block: mapping(yaml) }],
    }
}

fn one(kind: V2CatalogType, platform: &str, yaml: &str) -> Result<DbtCatalogsV2View, String> {
    Ok(DbtCatalogsV2View { catalogs: vec![catalog("C", kind, platform, yaml)] })
}

fn relation_named(kind: &str) -> CatalogRelation {
    CatalogRelation {
        catalog_type: kind.to_string(),
        ..CatalogRelation::default_catalog_relation_duckdb()
    }
}

fn context() -> ProjectContext {
    ProjectContext {
        databricks_default: relation_named("the Databricks default"),
        bigquery_default: relation_named("the BigQuery default"),
        without_catalogs_yml: Err(AdapterError::new(
            AdapterErrorKind::Internal,
            "nothing without catalogs.yml".to_string(),
        )),
        external_volume: Some("s3://bucket/root/schema/table".to_string()),
    }
}

fn build(
    adapter_type: AdapterType,
    fields: &[(&str, &str)],
    catalogs: &Result<DbtCatalogsV2View, String>,
) -> AdapterResult<CatalogRelation> {
    from_model_config_and_catalogs_v2(adapter_type, &flat(fields), catalogs, context())
}

fn refusal(r: AdapterResult<CatalogRelation>) -> String {
    let e = r.unwrap_err();
    assert_eq!(e.kind, AdapterErrorKind::Configuration);
    e.message
}

fn property(r: &CatalogRelation, name: &str) -> Option<String> {
    r.adapter_properties.get(name).map(|s| s.to_string())
}

fn unreadable() -> Result<DbtCatalogsV2View, String> {
    Err("catalogs.yml is broken".to_string())
}

// Which rules apply.

#[test]
fn adapters_without_relations_are_an_internal_error() {
    let e = build(AdapterType::Other("Postgres"), &[("catalog_name", "C")], &unreadable())
        .unwrap_err();
    assert_eq!(e.kind, AdapterErrorKind::Internal);
    assert_eq!(e.message, "build_relation_catalog cannot be invoked by an adapter Postgres");
}

#[test]
fn adapter_properties_are_refused_wherever_they_stand() {
    let wanted = "catalogs.yml v2 supports top-level model overrides only; model adapter_properties are not supported";
    let with = || Section { entries: vec![], adapter_properties: Some(vec![]) };
    let models = [
        Model { fields: with(), sections: vec![] },
        Model {
            fields: section(&[]),
            sections: vec![NamedSection { name: "duckdb_attr".to_string(), section: with() }],
        },
        Model {
            fields: section(&[]),
            sections: vec![NamedSection { name: "config".to_string(), section: with() }],
        },
    ];
    for m in models {
        let r = from_model_config_and_catalogs_v2(AdapterType::DuckDB, &m, &unreadable(), context());
        assert_eq!(refusal(r), wanted);
    }
    let other = Model {
        fields: section(&[]),
        sections: vec![NamedSection { name: "snowflake_attr".to_string(), section: with() }],
    };
    let r = from_model_config_and_catalogs_v2(AdapterType::DuckDB, &other, &unreadable(), context());
    assert_eq!(r.unwrap().catalog_type, "duckdb");
}

#[test]
fn without_a_catalog_each_adapter_has_its_default() {
    let r = build(AdapterType::Databricks, &[("table_format", "default")], &unreadable()).unwrap();
    assert_eq!(r.catalog_type, "the Databricks default");
    let r = build(AdapterType::Bigquery, &[], &unreadable()).unwrap();
    assert_eq!(r.catalog_type, "the BigQuery default");
    let e = build(AdapterType::Snowflake, &[("table_format", "iceberg")], &unreadable()).unwrap_err();
    assert_eq!(e.message, "nothing without catalogs.yml");
    let r = build(AdapterType::DuckDB, &[], &unreadable()).unwrap();
    assert_eq!(r.catalog_type, "duckdb");
    assert_eq!(r.table_format, "default");
}

#[test]
fn iceberg_needs_a_catalog_on_databricks_and_bigquery() {
    for format in ["iceberg", "ICEBERG", "IceBerg"] {
        assert_eq!(
            refusal(build(AdapterType::Databricks, &[("table_format", format)], &unreadable())),
            "On Databricks, table_format=iceberg requires a `catalog_name` to select a v2 catalog (unity or hive_metastore)."
        );
        assert_eq!(
            refusal(build(AdapterType::Bigquery, &[("table_format", format)], &unreadable())),
            "On Bigquery, table_format=iceberg requires catalogs.yml and a `catalog_name` that selects a v2 catalog."
        );
    }
}

#[test]
fn the_word_none_is_no_catalog_in_any_spelling() {
    for name in ["none", "NONE", " None\n", "\u{3000}none\u{a0}"] {
        let m = flat(&[("catalog_name", name)]);
        assert_eq!(model_catalog_name(&m, AdapterType::DuckDB), None);
        let r = build(AdapterType::DuckDB, &[("catalog_name", name)], &unreadable()).unwrap();
        assert_eq!(r.catalog_name, None);
    }
    let m = flat(&[("catalog_name", "  my catalog\t")]);
    assert_eq!(model_catalog_name(&m, AdapterType::DuckDB).as_deref(), Some("my catalog"));
    let m = flat(&[("catalog_name", "")]);
    assert_eq!(model_catalog_name(&m, AdapterType::DuckDB).as_deref(), Some(""));
}

#[test]
fn catalogs_are_read_only_once_one_is_selected() {
    let fields = [("catalog_name", "C")];
    for adapter in
        [AdapterType::Databricks, AdapterType::Snowflake, AdapterType::Bigquery, AdapterType::DuckDB]
    {
        assert_eq!(refusal(build(adapter, &fields, &unreadable())), "catalogs.yml is broken");
    }
}

#[test]
fn the_first_catalog_of_a_name_counts() {
    let catalogs = Ok(DbtCatalogsV2View {
        catalogs: vec![
            catalog("A", V2CatalogType::DuckLake, "duckdb", "metadata_path: a"),
            catalog("C", V2CatalogType::DuckLake, "duckdb", "metadata_path: first"),
            catalog("C", V2CatalogType::DuckLake, "duckdb", "metadata_path: second"),
        ],
    });
    let r = build(AdapterType::DuckDB, &[("catalog_name", " C ")], &catalogs).unwrap();
    assert_eq!(property(&r, "metadata_path").as_deref(), Some("first"));
    assert_eq!(r.catalog_name.as_deref(), Some("C"));
    assert_eq!(
        refusal(build(AdapterType::DuckDB, &[("catalog_name", "c")], &catalogs)),
        "Catalog 'c' not found in catalogs.yml"
    );
}

#[test]
fn a_model_may_not_say_what_kind_its_catalog_is() {
    let catalogs = one(V2CatalogType::DuckLake, "duckdb", "metadata_path: a");
    let fields = [("catalog_name", "C"), ("catalog_type", "ducklake")];
    assert_eq!(
        refusal(build(AdapterType::DuckDB, &fields, &catalogs)),
        "catalog_type may only be specified in write integration entries of catalogs.yml"
    );
}

#[test]
fn catalogs_of_other_platforms_are_refused() {
    let fields = [("catalog_name", "C")];
    let horizon = one(V2CatalogType::Horizon, "snowflake", "external_volume: EV");
    let hive = one(V2CatalogType::HiveMetastore, "databricks", "file_format: delta");
    assert_eq!(
        refusal(build(AdapterType::DuckDB, &fields, &horizon)),
        "Catalog 'C' has type 'horizon'; DuckDB v2 mapping supports only 'glue', 'iceberg_rest', 'ducklake', and 'local_filesystem'"
    );
    assert_eq!(
        refusal(build(AdapterType::Databricks, &fields, &horizon)),
        "Catalog 'C' has type 'horizon'; Databricks v2 mapping supports only 'unity' and 'hive_metastore'"
    );
    assert_eq!(
        refusal(build(AdapterType::Snowflake, &fields, &hive)),
        "Catalog 'C' has type 'hive_metastore'; Snowflake v2 mapping supports only 'horizon', 'glue', 'iceberg_rest', and 'unity'"
    );
    assert_eq!(
        refusal(build(AdapterType::Bigquery, &fields, &hive)),
        "Catalog 'C' has type 'hive_metastore'; Bigquery v2 mapping supports only 'biglake_metastore'"
    );
}

#[test]
fn a_catalog_must_configure_the_platform() {
    let fields = [("catalog_name", "C")];
    let cases = [
        (AdapterType::Databricks, V2CatalogType::Unity, "databricks"),
        (AdapterType::Databricks, V2CatalogType::HiveMetastore, "databricks"),
        (AdapterType::Snowflake, V2CatalogType::Horizon, "snowflake"),
        (AdapterType::Snowflake, V2CatalogType::Glue, "snowflake"),
        (AdapterType::Bigquery, V2CatalogType::BiglakeMetastore, "bigquery"),
        (AdapterType::DuckDB, V2CatalogType::IcebergRest, "duckdb"),
        (AdapterType::DuckDB, V2CatalogType::DuckLake, "duckdb"),
        (AdapterType::DuckDB, V2CatalogType::LocalFilesystem, "duckdb"),
    ];
    for (adapter, kind, platform) in cases {
        let catalogs = one(kind, "elsewhere", "a: b");
        assert_eq!(
            refusal(build(adapter, &fields, &catalogs)),
            format!("Catalog 'C' is missing config.{platform}")
        );
    }
}

// How fields are looked up.

#[test]
fn where_a_field_stands_makes_no_difference() {
    let fields = [("catalog_name", "C"), ("file_format", "Parquet"), ("use_uniform", "false")];
    let layouts = [
        flat(&fields),
        Model { fields: section(&[]), sections: vec![named("databricks_attr", &fields)] },
        Model { fields: section(&[]), sections: vec![named("config", &fields)] },
        Model { fields: section(&fields), sections: vec![named("config", &fields)] },
        Model {
            fields: section(&fields[..1]),
            sections: vec![named("databricks_attr", &fields[1..])],
        },
    ];
    let catalogs = one(V2CatalogType::Unity, "databricks", "file_format: delta\nuse_uniform: true");
    for m in layouts {
        let r = from_model_config_and_catalogs_v2(AdapterType::Databricks, &m, &catalogs, context())
            .unwrap();
        assert_eq!(r.file_format.as_deref(), Some("parquet"));
        assert_eq!(property(&r, "use_uniform").as_deref(), Some("false"));
    }
}

#[test]
fn the_top_level_comes_first_and_the_older_layout_last() {
    let m = Model {
        fields: section(&[("a", "top")]),
        sections: vec![
            named("config", &[("a", "old"), ("b", "old"), ("c", "old")]),
            named("bigquery_attr", &[("a", "own"), ("b", "own")]),
            named("snowflake_attr", &[("c", "foreign")]),
        ],
    };
    let value = |key| m.get_model_config_value(key, AdapterType::Bigquery);
    assert_eq!(value("a").as_deref(), Some("top"));
    assert_eq!(value("b").as_deref(), Some("own"));
    assert_eq!(value("c").as_deref(), Some("old"));
    assert_eq!(value("d"), None);
}

#[test]
fn flags_and_numbers_of_a_model() {
    let m = flat(&[("on", "true"), ("off", "false"), ("unset", ""), ("odd", "maybe"), ("n", "+007")]);
    let flag = |key| parse_model_bool(&m, key, AdapterType::Snowflake);
    assert_eq!(flag("on").unwrap(), Some(true));
    assert_eq!(flag("off").unwrap(), Some(false));
    assert_eq!(flag("unset").unwrap(), None);
    assert_eq!(flag("absent").unwrap(), None);
    let e = flag("odd").unwrap_err();
    assert_eq!(e.kind, AdapterErrorKind::Configuration);
    assert_eq!(e.message, "'maybe' is no flag for odd");
    let number = |key| parse_model_u32(&m, key, AdapterType::Snowflake);
    assert_eq!(number("n").unwrap(), Some(7));
    assert_eq!(number("absent").unwrap(), None);
    assert_eq!(
        number("odd").unwrap_err().message,
        "Model field 'odd' must be a non-negative integer"
    );
}

#[test]
fn numbers_are_what_the_standard_library_reads() {
    for text in [
        "0", "7", "+7", "007", "4294967295", "4294967296", "99999999999", "", "+", "-0", "-1", " 1",
        "1 ", "1_0", "1.0", "++1", "+4294967295", "00000000000000000001", "x", "\u{661}",
    ] {
        let m = flat(&[("n", text)]);
        let given = parse_model_u32(&m, "n", AdapterType::Snowflake);
        match text.parse::<u32>() {
            Ok(n) => assert_eq!(given.unwrap(), Some(n)),
            Err(_) => assert!(given.is_err(), "{text:?}"),
        }
    }
}

#[test]
fn scalars_of_a_block() {
    let m = mapping(
        "text: '  padded\t'\nblank: ' '\nyes: true\nsmall: 30\nlargest: 4294967295\ntoo_large: 4294967296\nhuge: 18446744073709551615\nnegative: -1\nfraction: 1.5\nquoted: '30'\ntagged: !unit 12\nlist: [1]\nnothing: null\n12: twelve\n",
    );
    assert_eq!(get_yaml_str(&m, "text").as_deref(), Some("padded"));
    assert_eq!(get_yaml_str(&m, "blank").as_deref(), Some(""));
    assert_eq!(get_yaml_str(&m, "quoted").as_deref(), Some("30"));
    for key in ["yes", "small", "list", "nothing", "absent", "12"] {
        assert_eq!(get_yaml_str(&m, key), None, "{key}");
    }
    assert_eq!(get_yaml_bool(&m, "yes"), Some(true));
    assert_eq!(get_yaml_bool(&m, "text"), None);
    assert_eq!(get_yaml_u32(&m, "small"), Some(30));
    assert_eq!(get_yaml_u32(&m, "largest"), Some(u32::MAX));
    assert_eq!(get_yaml_u32(&m, "tagged"), Some(12));
    for key in ["too_large", "huge", "negative", "fraction", "quoted", "yes", "absent"] {
        assert_eq!(get_yaml_u32(&m, key), None, "{key}");
    }
    for key in ["small", "quoted", "yes", "text", "tagged", "list", "nothing"] {
        let readings = [
            get_yaml_str(&m, key).is_some(),
            get_yaml_bool(&m, key).is_some(),
            get_yaml_u32(&m, key).is_some(),
        ];
        assert!(readings.iter().filter(|there| **there).count() <= 1, "{key}");
    }
}

// Databricks.

#[test]
fn unity_takes_uniform_delta_or_plain_parquet() {
    let catalogs = one(V2CatalogType::Unity, "databricks", "a: b");
    let given = |format: &str, uniform: &str| {
        let fields = [("catalog_name", "C"), ("file_format", format), ("use_uniform", uniform)];
        build(AdapterType::Databricks, &fields, &catalogs)
    };
    let r = given("DELTA", "true").unwrap();
    assert_eq!(r.file_format.as_deref(), Some("delta"));
    assert_eq!(property(&r, "use_uniform").as_deref(), Some("true"));
    let r = given("parquet", "").unwrap();
    assert_eq!(property(&r, "use_uniform").as_deref(), Some("false"));
    assert_eq!(
        refusal(given("delta", "")),
        "Databricks v2 unity use_uniform: false (or unset) requires file_format: parquet"
    );
    assert_eq!(
        refusal(given("parquet", "true")),
        "Databricks v2 unity use_uniform: true requires file_format: delta"
    );
    for uniform in ["true", "false"] {
        assert_eq!(
            refusal(given("Hudi", uniform)),
            "Databricks v2 unity does not support file_format 'hudi' (use delta or parquet)"
        );
    }
    assert_eq!(
        refusal(given("CSV", "true")),
        "file_format 'csv' is not one of (delta|parquet|hudi)"
    );
    assert_eq!(refusal(given("csv", "maybe")), "'maybe' is no flag for use_uniform");
}

#[test]
fn unity_is_delta_unless_configured() {
    let catalogs = one(V2CatalogType::Unity, "databricks", "use_uniform: true");
    let r = build(AdapterType::Databricks, &[("catalog_name", "C")], &catalogs).unwrap();
    assert_eq!(r.file_format.as_deref(), Some(DELTA_TABLE_FORMAT));
    assert_eq!(r.table_format, "iceberg");
    assert_eq!(r.external_volume, None);
    assert!(!r.adapter_properties.contains_key("location_root"));
    assert_eq!(r.is_transient, None);
}

#[test]
fn unity_with_a_location_root_has_an_external_volume() {
    let yaml = "file_format: parquet\nlocation_root: ' s3://bucket/root '";
    let catalogs = one(V2CatalogType::Unity, "databricks", yaml);
    let fields = [("catalog_name", "C")];
    let r = build(AdapterType::Databricks, &fields, &catalogs).unwrap();
    assert_eq!(property(&r, "location_root").as_deref(), Some("s3://bucket/root"));
    assert_eq!(r.external_volume.as_deref(), Some("s3://bucket/root/schema/table"));
    assert_eq!(
        unity_location_root(&flat(&fields), &catalogs).as_deref(),
        Some("s3://bucket/root")
    );

    let fields = [("catalog_name", "C"), ("location_root", "s3://mine")];
    let r = build(AdapterType::Databricks, &fields, &catalogs).unwrap();
    assert_eq!(property(&r, "location_root").as_deref(), Some("s3://mine"));
    assert_eq!(unity_location_root(&flat(&fields), &catalogs).as_deref(), Some("s3://mine"));

    let fields = [("catalog_name", "C"), ("location_root", " \t"), ("file_format", "csv")];
    assert_eq!(
        refusal(build(AdapterType::Databricks, &fields, &catalogs)),
        "Databricks v2 location_root cannot be blank or whitespace"
    );
}

#[test]
fn no_location_root_is_asked_for_without_a_unity_catalog() {
    let hive = one(V2CatalogType::HiveMetastore, "databricks", "location_root: s3://b");
    let fields = [("catalog_name", "C"), ("location_root", "s3://mine")];
    assert_eq!(unity_location_root(&flat(&fields), &hive), None);
    assert_eq!(unity_location_root(&flat(&fields), &unreadable()), None);
    let unity = one(V2CatalogType::Unity, "snowflake", "location_root: s3://b");
    assert_eq!(unity_location_root(&flat(&fields), &unity), None);
    assert_eq!(unity_location_root(&flat(&fields[1..]), &unity), None);
}

#[test]
fn no_location_root_is_asked_for_where_the_model_or_the_root_is_refused() {
    let unity = one(V2CatalogType::Unity, "databricks", "location_root: s3://b");
    let asked = |more: &[(&str, &str)]| {
        let fields = [&[("catalog_name", "C")], more].concat();
        unity_location_root(&flat(&fields), &unity)
    };
    assert_eq!(asked(&[]).as_deref(), Some("s3://b"));
    assert_eq!(asked(&[("use_uniform", "false")]).as_deref(), Some("s3://b"));
    assert_eq!(asked(&[("file_format", "csv")]).as_deref(), Some("s3://b"));
    assert_eq!(asked(&[("location_root", " \t")]), None);
    assert_eq!(asked(&[("catalog_type", "unity")]), None);
    assert_eq!(asked(&[("use_uniform", "maybe")]), None);
    let blank = one(V2CatalogType::Unity, "databricks", "location_root: ' '");
    assert_eq!(unity_location_root(&flat(&[("catalog_name", "C")]), &blank), None);
    let mut model = flat(&[("catalog_name", "C")]);
    model.fields.adapter_properties = Some(vec![]);
    assert_eq!(unity_location_root(&model, &unity), None);
}

#[test]
fn a_flag_that_cannot_be_read_overrides_the_catalog() {
    for yaml in ["use_uniform: true", "use_uniform: false", "file_format: delta"] {
        let catalogs = one(V2CatalogType::Unity, "databricks", yaml);
        let fields = [("catalog_name", "C"), ("use_uniform", "maybe")];
        assert_eq!(
            refusal(build(AdapterType::Databricks, &fields, &catalogs)),
            "'maybe' is no flag for use_uniform"
        );
    }
}

#[test]
fn the_external_volume_makes_no_difference_unasked() {
    let catalogs = one(V2CatalogType::Unity, "databricks", "use_uniform: true");
    let model = flat(&[("catalog_name", "C")]);
    assert_eq!(unity_location_root(&model, &catalogs), None);
    for volume in [None, Some("s3://elsewhere".to_string())] {
        let given = ProjectContext { external_volume: volume, ..context() };
        let r = from_model_config_and_catalogs_v2(AdapterType::Databricks, &model, &catalogs, given);
        assert_eq!(r.unwrap().external_volume, None);
    }
}

#[test]
fn hive_takes_the_file_format_of_the_catalog_alone() {
    for yaml in ["file_format: hudi", "file_format: HUDI\nlocation_root: ' '\nuse_uniform: true"] {
        let catalogs = one(V2CatalogType::HiveMetastore, "databricks", yaml);
        let r = build(AdapterType::Databricks, &[("catalog_name", "C")], &catalogs).unwrap();
        assert_eq!(r.file_format.as_deref(), Some("hudi"));
        assert_eq!(r.external_volume, None);
        assert!(r.adapter_properties.is_empty());
    }
}

#[test]
fn hive_takes_each_format_and_no_location() {
    let catalogs = one(V2CatalogType::HiveMetastore, "databricks", "location_root: s3://bucket");
    for (format, kept) in [("Delta", "delta"), ("PARQUET", "parquet"), ("hudi", "hudi")] {
        let fields = [("catalog_name", "C"), ("file_format", format)];
        let r = build(AdapterType::Databricks, &fields, &catalogs).unwrap();
        assert_eq!(r.file_format.as_deref(), Some(kept));
        assert_eq!(r.catalog_type, "hive_metastore");
        assert!(r.adapter_properties.is_empty());
        assert_eq!(r.external_volume, None);
    }
    let r = build(AdapterType::Databricks, &[("catalog_name", "C")], &catalogs).unwrap();
    assert_eq!(r.file_format.as_deref(), Some("delta"));
    assert_eq!(
        refusal(build(
            AdapterType::Databricks,
            &[("catalog_name", "C"), ("file_format", "csv")],
            &catalogs
        )),
        "Databricks v2 hive_metastore file_format must be one of (delta|parquet|hudi)"
    );
    for field in ["location_root", "use_uniform"] {
        let m = flat(&[(field, "false")]);
        assert_eq!(
            reject_unsupported_databricks_hive_v2_model_fields(&m).unwrap_err().message,
            format!("Databricks v2 hive_metastore does not support model field '{field}'.")
        );
    }
    assert!(reject_unsupported_databricks_hive_v2_model_fields(&flat(&[("schema", "s")])).is_ok());
    let both = flat(&[("use_uniform", "true"), ("location_root", "s3://b")]);
    assert!(reject_unsupported_databricks_hive_v2_model_fields(&both)
        .unwrap_err()
        .message
        .contains("'location_root'"));
}

#[test]
fn file_formats_by_name() {
    assert_eq!(V2FileFormat::parse("delta"), Ok(V2FileFormat::Delta));
    assert_eq!(V2FileFormat::parse("parquet"), Ok(V2FileFormat::Parquet));
    assert_eq!(V2FileFormat::parse("hudi"), Ok(V2FileFormat::Hudi));
    assert!(V2FileFormat::parse("Delta").is_err());
    assert!(is_valid_databricks_file_format("DeLtA"));
    assert!(!is_valid_databricks_file_format("delta "));
    assert!(!is_valid_databricks_file_format(""));
    assert!(UniformMode::from_bool(true).is_enabled());
    assert!(!UniformMode::from_bool(false).is_enabled());
}

// Snowflake.

const HORIZON: &str = "external_volume: EV\nbase_location_root: yaml_root\nchange_tracking: false\ndata_retention_time_in_days: 1\nmax_data_extension_time_in_days: 2\nstorage_serialization_policy: COMPATIBLE\niceberg_version: '2'\n";

#[test]
fn horizon_takes_what_the_catalog_says() {
    let catalogs = one(V2CatalogType::Horizon, "snowflake", HORIZON);
    let fields = [("catalog_name", "C"), ("schema", "S"), ("identifier", "I")];
    let r = build(AdapterType::Snowflake, &fields, &catalogs).unwrap();
    assert_eq!(r.catalog_type, CatalogType::SnowflakeBuiltIn.as_str());
    assert_eq!(r.table_format, "ICEBERG");
    assert_eq!(r.external_volume.as_deref(), Some("EV"));
    assert_eq!(r.base_location.as_deref(), Some("yaml_root/S/I"));
    assert_eq!(r.is_transient, Some(false));
    assert_eq!(r.file_format, None);
    let properties: Vec<(&str, &str)> = r
        .adapter_properties
        .entries()
        .iter()
        .map(|p| (p.name.as_str(), p.value.as_str()))
        .collect();
    assert_eq!(
        properties,
        vec![
            ("change_tracking", "false"),
            ("data_retention_time_in_days", "1"),
            ("iceberg_version", "2"),
            ("max_data_extension_time_in_days", "2"),
            ("storage_serialization_policy", "COMPATIBLE"),
        ]
    );
}

#[test]
fn horizon_prefers_what_the_model_says() {
    let catalogs = one(V2CatalogType::Horizon, "snowflake", HORIZON);
    let fields = [
        ("catalog_name", "C"),
        ("external_volume", "MINE"),
        ("base_location_root", "root"),
        ("base_location_subpath", "sub"),
        ("schema", "S"),
        ("alias", "A"),
        ("identifier", "I"),
        ("change_tracking", "true"),
        ("data_retention_time_in_days", "030"),
        ("max_data_extension_time_in_days", "+9"),
        ("storage_serialization_policy", "OPTIMIZED"),
        ("iceberg_version", "3"),
    ];
    let r = build(AdapterType::Snowflake, &fields, &catalogs).unwrap();
    assert_eq!(r.external_volume.as_deref(), Some("MINE"));
    assert_eq!(r.base_location.as_deref(), Some("root/S/A/sub"));
    assert_eq!(property(&r, "change_tracking").as_deref(), Some("true"));
    assert_eq!(property(&r, "data_retention_time_in_days").as_deref(), Some("30"));
    assert_eq!(property(&r, "max_data_extension_time_in_days").as_deref(), Some("9"));
    assert_eq!(property(&r, "storage_serialization_policy").as_deref(), Some("OPTIMIZED"));
    assert_eq!(property(&r, "iceberg_version").as_deref(), Some("3"));
}

#[test]
fn horizon_without_settings_has_no_properties() {
    let catalogs = one(V2CatalogType::Horizon, "snowflake", "a: b");
    let r = build(AdapterType::Snowflake, &[("catalog_name", "C")], &catalogs).unwrap();
    assert!(r.adapter_properties.is_empty());
    assert_eq!(r.external_volume, None);
    assert_eq!(r.base_location.as_deref(), Some("_dbt"));
}

#[test]
fn horizon_refuses_values_that_it_cannot_read() {
    let catalogs = one(V2CatalogType::Horizon, "snowflake", HORIZON);
    let given = |field: &str, text: &str| {
        refusal(build(AdapterType::Snowflake, &[("catalog_name", "C"), (field, text)], &catalogs))
    };
    assert_eq!(given("transient", "maybe"), "'maybe' is no flag for transient");
    assert_eq!(given("change_tracking", "maybe"), "'maybe' is no flag for change_tracking");
    for field in ["data_retention_time_in_days", "max_data_extension_time_in_days"] {
        assert_eq!(
            given(field, "-1"),
            format!("Model field '{field}' must be a non-negative integer")
        );
    }
}

#[test]
fn linked_catalogs_of_each_kind() {
    let yaml = "catalog_database: DB\nauto_refresh: false\nmax_data_extension_time_in_days: 30\ntarget_file_size: 16MB\niceberg_version: '2'";
    for kind in [V2CatalogType::Glue, V2CatalogType::IcebergRest, V2CatalogType::Unity] {
        let catalogs = one(kind, "snowflake", yaml);
        let fields = [("catalog_name", "C"), ("database", "OTHER")];
        let r = build(AdapterType::Snowflake, &fields, &catalogs).unwrap();
        assert_eq!(r.catalog_type, CatalogType::SnowflakeIcebergRest.as_str());
        assert_eq!(r.is_transient, Some(false));
        assert_eq!(r.external_volume, None);
        assert_eq!(r.base_location, None);
        assert_eq!(property(&r, "catalog_database").as_deref(), Some("DB"));
        assert_eq!(property(&r, "auto_refresh").as_deref(), Some("false"));
        assert_eq!(property(&r, "max_data_extension_time_in_days").as_deref(), Some("30"));
        assert_eq!(property(&r, "target_file_size").as_deref(), Some("16MB"));
        assert_eq!(property(&r, "iceberg_version").as_deref(), Some("2"));

        let catalogs = one(kind, "snowflake", "auto_refresh: true");
        assert_eq!(
            refusal(build(AdapterType::Snowflake, &fields, &catalogs)),
            format!("Catalog 'C' {}/snowflake requires catalog_database", kind.as_str())
        );
        let fields = [("catalog_name", "C"), ("transient", "true")];
        assert!(refusal(build(AdapterType::Snowflake, &fields, &catalogs))
            .starts_with("transient may not be specified for ICEBERG catalogs."));
    }
}

#[test]
fn linked_catalogs_refuse_what_they_do_not_support() {
    for field in [
        "external_volume",
        "base_location_root",
        "base_location_subpath",
        "change_tracking",
        "data_retention_time_in_days",
        "storage_serialization_policy",
    ] {
        let m = flat(&[(field, "true")]);
        assert_eq!(
            reject_unsupported_snowflake_linked_v2_model_fields(&m, "glue").unwrap_err().message,
            format!("Snowflake v2 glue does not support model field '{field}' yet.")
        );
    }
    let fine = flat(&[("auto_refresh", "true"), ("transient", "false")]);
    assert!(reject_unsupported_snowflake_linked_v2_model_fields(&fine, "glue").is_ok());
    let catalogs = one(V2CatalogType::Glue, "snowflake", "catalog_database: DB");
    let given = |field: &str, text: &str| {
        refusal(build(AdapterType::Snowflake, &[("catalog_name", "C"), (field, text)], &catalogs))
    };
    assert_eq!(given("auto_refresh", "maybe"), "'maybe' is no flag for auto_refresh");
    assert_eq!(
        given("max_data_extension_time_in_days", "x"),
        "Model field 'max_data_extension_time_in_days' must be a non-negative integer"
    );
}

// BigQuery.

#[test]
fn biglake_needs_a_bucket_and_parquet() {
    let given = |yaml: &str| {
        let catalogs = one(V2CatalogType::BiglakeMetastore, "bigquery", yaml);
        refusal(build(AdapterType::Bigquery, &[("catalog_name", "C")], &catalogs))
    };
    let about = |problem: &str| format!("Catalog 'C' biglake_metastore/bigquery {problem}");
    assert_eq!(given("file_format: parquet"), about("requires external_volume"));
    assert_eq!(given("external_volume: ' '"), about("external_volume cannot be blank"));
    assert_eq!(
        given("external_volume: s3://bucket"),
        about("external_volume must start with gs://")
    );
    assert_eq!(given("external_volume: gs:/"), about("external_volume must start with gs://"));
    assert_eq!(given("external_volume: gs://b"), about("requires file_format"));
    assert_eq!(
        given("external_volume: gs://b\nfile_format: avro"),
        about("file_format must be parquet")
    );
    assert_eq!(
        given("external_volume: gs://b\nfile_format: parquet\nbase_location_root: ' '"),
        "Bigquery v2 base_location_root cannot be blank or whitespace"
    );
}

#[test]
fn biglake_stands_where_the_model_says() {
    let yaml = "external_volume: gs://b\nfile_format: PARQUET\nconnection_id: yaml";
    let catalogs = one(V2CatalogType::BiglakeMetastore, "bigquery", yaml);
    let fields = [("catalog_name", "C"), ("storage_uri", "elsewhere"), ("connection_id", "mine")];
    let r = build(AdapterType::Bigquery, &fields, &catalogs).unwrap();
    assert_eq!(r.file_format.as_deref(), Some("parquet"));
    assert_eq!(r.table_format, "iceberg");
    assert_eq!(property(&r, "storage_uri").as_deref(), Some("elsewhere"));
    assert_eq!(property(&r, "connection_id").as_deref(), Some("mine"));
    let r = build(AdapterType::Bigquery, &fields[..1], &catalogs).unwrap();
    assert_eq!(property(&r, "storage_uri").as_deref(), Some("gs://b/_dbt"));
    assert_eq!(property(&r, "connection_id").as_deref(), Some("yaml"));
    assert_eq!(r.external_volume, None);
    assert_eq!(r.base_location, None);
}

// DuckDB.

#[test]
fn duckdb_catalogs_need_their_settings() {
    let given = |kind: V2CatalogType| {
        let catalogs = one(kind, "duckdb", "attach_as: x");
        refusal(build(AdapterType::DuckDB, &[("catalog_name", "C")], &catalogs))
    };
    let about = |what: &str| format!("Catalog 'C' duckdb config requires {what}");
    assert_eq!(given(V2CatalogType::Glue), about("'endpoint' or 'endpoint_type'"));
    assert_eq!(given(V2CatalogType::IcebergRest), about("'endpoint' or 'endpoint_type'"));
    assert_eq!(given(V2CatalogType::DuckLake), about("'metadata_path'"));
    assert_eq!(given(V2CatalogType::LocalFilesystem), about("'root_path'"));
}

#[test]
fn local_files_are_parquet_unless_configured() {
    let catalogs = one(V2CatalogType::LocalFilesystem, "duckdb", "root_path: data");
    let r = build(AdapterType::DuckDB, &[("catalog_name", "C")], &catalogs).unwrap();
    assert_eq!(r.file_format.as_deref(), Some("parquet"));
    assert_eq!(r.table_format, "ICEBERG");
    assert_eq!(property(&r, "external_root").as_deref(), Some("data"));
    let catalogs = one(V2CatalogType::LocalFilesystem, "duckdb", "root_path: data\nfile_format: CSV");
    let r = build(AdapterType::DuckDB, &[("catalog_name", "C")], &catalogs).unwrap();
    assert_eq!(r.file_format.as_deref(), Some("csv"));
    let fields = [("catalog_name", "C"), ("file_format", "JSON")];
    let r = build(AdapterType::DuckDB, &fields, &catalogs).unwrap();
    assert_eq!(r.file_format.as_deref(), Some("json"));
}

#[test]
fn attached_names_are_identifiers() {
    assert_eq!(sanitize_duckdb_identifier("glue_db2"), "glue_db2");
    assert_eq!(sanitize_duckdb_identifier("my-lake.v1"), "my_lake_v1");
    assert_eq!(sanitize_duckdb_identifier("\u{e9}t\u{e9} 1"), "_t__1");
    assert_eq!(sanitize_duckdb_identifier(""), "");
    let catalogs = one(V2CatalogType::Glue, "duckdb", "endpoint: e\nattach_as: 'a b'");
    let r = build(AdapterType::DuckDB, &[("catalog_name", "C")], &catalogs).unwrap();
    assert_eq!(property(&r, "attached_database").as_deref(), Some("a_b"));
}

#[test]
fn base_locations() {
    let some = |s: &str| Some(s.to_string());
    let at = |root, subpath, schema, identifier| {
        CatalogRelation::build_base_location(&root, &subpath, &schema, &identifier)
    };
    assert_eq!(at(some("r"), some("p"), some("s"), some("i")), "r/s/i/p");
    assert_eq!(at(None, None, some("s"), some("i")), "_dbt/s/i");
    assert_eq!(at(some("r"), None, None, None), "r");
}
