//! Catalog relations: where a model's table lives and how it is stored.

use vstd::prelude::*;
use vstd::string::*;

use crate::adapter::{reports, AdapterResult, AdapterType, ErrorView};
use crate::properties::AdapterProperties;
use crate::text::text_of;

verus! {

/// Where a model's table lives, and how it is stored.
#[derive(Debug)]
pub struct CatalogRelation {
    pub adapter_type: AdapterType,
    pub catalog_name: Option<String>,
    pub integration_name: Option<String>,
    pub catalog_type: String,
    pub table_format: String,
    pub file_format: Option<String>,
    pub external_volume: Option<String>,
    pub base_location: Option<String>,
    pub adapter_properties: AdapterProperties,
    pub is_transient: Option<bool>,
}

/// A relation as contracts speak of it.
pub struct RelationView {
    pub adapter_type: AdapterType,
    pub catalog_name: Option<Seq<char>>,
    pub integration_name: Option<Seq<char>>,
    pub catalog_type: Seq<char>,
    pub table_format: Seq<char>,
    pub file_format: Option<Seq<char>>,
    pub external_volume: Option<Seq<char>>,
    pub base_location: Option<Seq<char>>,
    pub adapter_properties: Map<Seq<char>, Seq<char>>,
    pub is_transient: Option<bool>,
}

impl View for CatalogRelation {
    type V = RelationView;

    open spec fn view(&self) -> RelationView {
        RelationView {
            adapter_type: self.adapter_type,
            catalog_name: text_of(self.catalog_name),
            integration_name: text_of(self.integration_name),
            catalog_type: self.catalog_type@,
            table_format: self.table_format@,
            file_format: text_of(self.file_format),
            external_volume: text_of(self.external_volume),
            base_location: text_of(self.base_location),
            adapter_properties: self.adapter_properties@,
            is_transient: self.is_transient,
        }
    }
}

/// Whether `r` is `relation`, or the error `refusal` where there is one.
pub open spec fn builds(
    r: AdapterResult<CatalogRelation>,
    refusal: Option<ErrorView>,
    relation: RelationView,
) -> bool {
    &&& reports(r, refusal)
    &&& r matches Ok(built) ==> built@ == relation
}

/// The table format of Iceberg tables on Snowflake, BigQuery and DuckDB.
pub const ICEBERG_TABLE_FORMAT: &'static str = "ICEBERG";

/// The table format of Iceberg tables on Databricks.
pub const DBX_ICEBERG_TABLE_FORMAT: &'static str = "iceberg";

pub const DELTA_TABLE_FORMAT: &'static str = "delta";

pub const DEFAULT_TABLE_FORMAT: &'static str = "default";

pub const DATABRICKS_UNITY_CATALOG: &'static str = "unity";

pub const DATABRICKS_HIVE_METASTORE: &'static str = "hive_metastore";

pub const BIGQUERY_BIGLAKE_METASTORE: &'static str = "biglake_metastore";

pub const DUCKDB_CATALOG: &'static str = "duckdb";

/// The directory under which base locations stand, unless one is configured.
pub const DEFAULT_BASE_LOCATION_ROOT: &'static str = "_dbt";

/// The kinds of catalog that Snowflake knows.
#[derive(Clone, Copy, Debug, PartialEq, Eq, Structural)]
pub enum CatalogType {
    SnowflakeBuiltIn,
    SnowflakeIcebergRest,
}

impl CatalogType {
    pub open spec fn word(self) -> Seq<char> {
        match self {
            CatalogType::SnowflakeBuiltIn => "BUILT_IN"@,
            CatalogType::SnowflakeIcebergRest => "ICEBERG_REST"@,
        }
    }

    pub fn as_str(&self) -> (r: &'static str)
        ensures
            r@ == self.word(),
    {
        match self {
            CatalogType::SnowflakeBuiltIn => "BUILT_IN",
            CatalogType::SnowflakeIcebergRest => "ICEBERG_REST",
        }
    }
}

/// `path` with one more segment, where there is one.
pub open spec fn with_segment(path: Seq<char>, segment: Option<Seq<char>>) -> Seq<char> {
    match segment {
        Some(segment) => path + "/"@ + segment,
        None => path,
    }
}

/// The directory of a table: the root, the schema, the identifier and the subpath, as far as they
/// are known, with a slash between them.
pub open spec fn base_location(
    root: Option<Seq<char>>,
    subpath: Option<Seq<char>>,
    schema: Option<Seq<char>>,
    identifier: Option<Seq<char>>,
) -> Seq<char> {
    let root = match root {
        Some(root) => root,
        None => DEFAULT_BASE_LOCATION_ROOT@,
    };
    with_segment(with_segment(with_segment(root, schema), identifier), subpath)
}

fn append_segment(path: String, segment: &Option<String>) -> (r: String)
    ensures
        r@ == with_segment(path@, text_of(*segment)),
{
    match segment {
        Some(segment) => path.concat("/").concat(segment.as_str()),
        None => path,
    }
}

/// Whether `c` may stand in a DuckDB identifier that is not quoted.
pub open spec fn plain_identifier_char(c: char) -> bool {
    'a' <= c <= 'z' || 'A' <= c <= 'Z' || '0' <= c <= '9' || c == '_'
}

pub open spec fn sanitized_char(c: char) -> char {
    if plain_identifier_char(c) {
        c
    } else {
        '_'
    }
}

/// `name` with an underscore for each character that may not stand in a DuckDB identifier.
pub open spec fn sanitized(name: Seq<char>) -> Seq<char> {
    name.map_values(|c: char| sanitized_char(c))
}

/// `name` with an underscore for each character that may not stand in a DuckDB identifier.
pub fn sanitize_duckdb_identifier(name: &str) -> (r: String)
    ensures
        r@ == sanitized(name@),
{
    let mut r: String = String::new();
    for c in it: name.chars()
        invariant
            r@ == sanitized(name@.take(it.index() as int)),
            it.seq() == name@,
    {
        if ('a' <= c && c <= 'z') || ('A' <= c && c <= 'Z') || ('0' <= c && c <= '9') || c == '_' {
            r.push(c);
        } else {
            r.push('_');
        }
    }
    r
}

/// The relation of a DuckDB model that selects no catalog.
pub open spec fn duckdb_default() -> RelationView {
    RelationView {
        adapter_type: AdapterType::DuckDB,
        catalog_name: None,
        integration_name: None,
        catalog_type: DUCKDB_CATALOG@,
        table_format: DEFAULT_TABLE_FORMAT@,
        file_format: None,
        external_volume: None,
        base_location: None,
        adapter_properties: Map::empty(),
        is_transient: None,
    }
}

impl CatalogRelation {
    /// The directory of a table.
    pub fn build_base_location(
        root: &Option<String>,
        subpath: &Option<String>,
        schema: &Option<String>,
        identifier: &Option<String>,
    ) -> (r: String)
        ensures
            r@ == base_location(
                text_of(*root),
                text_of(*subpath),
                text_of(*schema),
                text_of(*identifier),
            ),
    {
        let path: String = match root {
            Some(root) => root.clone(),
            None => DEFAULT_BASE_LOCATION_ROOT.to_owned(),
        };
        append_segment(append_segment(append_segment(path, schema), identifier), subpath)
    }

    /// The relation of a DuckDB model that selects no catalog.
    pub fn default_catalog_relation_duckdb() -> (r: CatalogRelation)
        ensures
            r@ == duckdb_default(),
    {
        CatalogRelation {
            adapter_type: AdapterType::DuckDB,
            catalog_name: None,
            integration_name: None,
            catalog_type: DUCKDB_CATALOG.to_owned(),
            table_format: DEFAULT_TABLE_FORMAT.to_owned(),
            file_format: None,
            external_volume: None,
            base_location: None,
            adapter_properties: AdapterProperties::new(),
            is_transient: None,
        }
    }
}

} // verus!
