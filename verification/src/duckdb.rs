//! DuckDB relations: in attached Iceberg catalogs, in DuckLake and in local files.

use dbt_yaml::Mapping;
use vstd::prelude::*;
use vstd::string::*;

use crate::adapter::{configuration_error, AdapterError, AdapterResult, AdapterType, ErrorView};
use crate::catalogs::{
    missing_block, require_platform_block, uppercase_table_format, CatalogSpecV2View, V2CatalogType,
};
use crate::fields::{ADAPTER_PROP_EXTERNAL_ROOT, FIELD_FILE_FORMAT};
use crate::model::Model;
use crate::properties::{with_property, AdapterProperties};
use crate::relation::{builds, sanitize_duckdb_identifier, sanitized, CatalogRelation, RelationView};
use crate::text::{ascii_lowercase, lowercase, or_else, text_of, uppercase};
use crate::yaml::{get_yaml_str, yaml_str};

verus! {

/// What a catalog configures for DuckDB.
pub struct DuckdbSettings {
    pub endpoint: Option<String>,
    pub endpoint_type: Option<String>,
    pub warehouse: Option<String>,
    pub secret: Option<String>,
    pub attach_as: Option<String>,
    pub metadata_path: Option<String>,
    pub data_path: Option<String>,
    pub root_path: Option<String>,
    pub file_format: Option<String>,
}

/// The settings as contracts speak of them.
pub struct DuckdbView {
    pub endpoint: Option<Seq<char>>,
    pub endpoint_type: Option<Seq<char>>,
    pub warehouse: Option<Seq<char>>,
    pub secret: Option<Seq<char>>,
    pub attach_as: Option<Seq<char>>,
    pub metadata_path: Option<Seq<char>>,
    pub data_path: Option<Seq<char>>,
    pub root_path: Option<Seq<char>>,
    pub file_format: Option<Seq<char>>,
}

impl View for DuckdbSettings {
    type V = DuckdbView;

    open spec fn view(&self) -> DuckdbView {
        DuckdbView {
            endpoint: text_of(self.endpoint),
            endpoint_type: text_of(self.endpoint_type),
            warehouse: text_of(self.warehouse),
            secret: text_of(self.secret),
            attach_as: text_of(self.attach_as),
            metadata_path: text_of(self.metadata_path),
            data_path: text_of(self.data_path),
            root_path: text_of(self.root_path),
            file_format: text_of(self.file_format),
        }
    }
}

/// The settings that stand in `block`.
pub open spec fn duckdb_settings(block: Mapping) -> DuckdbView {
    DuckdbView {
        endpoint: yaml_str(block, "endpoint"@),
        endpoint_type: yaml_str(block, "endpoint_type"@),
        warehouse: yaml_str(block, "warehouse"@),
        secret: yaml_str(block, "secret"@),
        attach_as: yaml_str(block, "attach_as"@),
        metadata_path: yaml_str(block, "metadata_path"@),
        data_path: yaml_str(block, "data_path"@),
        root_path: yaml_str(block, "root_path"@),
        file_format: yaml_str(block, FIELD_FILE_FORMAT@),
    }
}

impl DuckdbSettings {
    /// The settings that stand in `block`.
    pub fn read(block: &Mapping) -> (r: DuckdbSettings)
        ensures
            r@ == duckdb_settings(*block),
    {
        DuckdbSettings {
            endpoint: get_yaml_str(block, "endpoint"),
            endpoint_type: get_yaml_str(block, "endpoint_type"),
            warehouse: get_yaml_str(block, "warehouse"),
            secret: get_yaml_str(block, "secret"),
            attach_as: get_yaml_str(block, "attach_as"),
            metadata_path: get_yaml_str(block, "metadata_path"),
            data_path: get_yaml_str(block, "data_path"),
            root_path: get_yaml_str(block, "root_path"),
            file_format: get_yaml_str(block, FIELD_FILE_FORMAT),
        }
    }
}

/// The name under which the catalog's database is attached: the one that the catalog asks for,
/// else the catalog's own, made an identifier.
pub open spec fn attached_as(settings: DuckdbView, catalog_name: Seq<char>) -> Seq<char> {
    sanitized(
        match settings.attach_as {
            Some(name) => name,
            None => catalog_name,
        },
    )
}

/// An error for a catalog that lacks a setting that DuckDB needs.
pub open spec fn duckdb_requires(catalog_name: Seq<char>, what: Seq<char>) -> ErrorView {
    configuration_error("Catalog '"@ + catalog_name + "' duckdb config requires "@ + what)
}

/// A DuckDB relation with the properties `properties`.
pub open spec fn duckdb_relation(
    catalog_type: V2CatalogType,
    table_format: Seq<char>,
    catalog_name: Seq<char>,
    file_format: Option<Seq<char>>,
    properties: Map<Seq<char>, Seq<char>>,
) -> RelationView {
    RelationView {
        adapter_type: AdapterType::DuckDB,
        catalog_name: Some(catalog_name),
        integration_name: None,
        catalog_type: catalog_type.word(),
        table_format,
        file_format,
        external_volume: None,
        base_location: None,
        adapter_properties: properties,
        is_transient: None,
    }
}

/// The refusal of an attached catalog that cannot be reached.
pub open spec fn attached_values_refusal(settings: DuckdbView, catalog_name: Seq<char>) -> Option<
    ErrorView,
> {
    if settings.endpoint is None && settings.endpoint_type is None {
        Some(duckdb_requires(catalog_name, "'endpoint' or 'endpoint_type'"@))
    } else {
        None
    }
}

/// The properties of a relation in an attached catalog.
pub open spec fn attached_properties(settings: DuckdbView, catalog_name: Seq<char>) -> Map<
    Seq<char>,
    Seq<char>,
> {
    let endpoint = with_property(Map::empty(), "endpoint"@, settings.endpoint);
    let endpoint_type = with_property(endpoint, "endpoint_type"@, settings.endpoint_type);
    let warehouse = with_property(endpoint_type, "warehouse"@, settings.warehouse);
    let secret = with_property(warehouse, "secret"@, settings.secret);
    secret.insert("attached_database"@, attached_as(settings, catalog_name))
}

/// The refusal of a DuckLake catalog without its metadata.
pub open spec fn ducklake_values_refusal(settings: DuckdbView, catalog_name: Seq<char>) -> Option<
    ErrorView,
> {
    if settings.metadata_path is None {
        Some(duckdb_requires(catalog_name, "'metadata_path'"@))
    } else {
        None
    }
}

/// The properties of a relation in DuckLake.
pub open spec fn ducklake_properties(settings: DuckdbView, catalog_name: Seq<char>) -> Map<
    Seq<char>,
    Seq<char>,
> {
    let metadata = with_property(Map::empty(), "metadata_path"@, settings.metadata_path);
    let data = with_property(metadata, "data_path"@, settings.data_path);
    data.insert("catalog_linked_database"@, attached_as(settings, catalog_name))
}

/// The refusal of a catalog of local files without a directory.
pub open spec fn local_values_refusal(settings: DuckdbView, catalog_name: Seq<char>) -> Option<
    ErrorView,
> {
    if settings.root_path is None {
        Some(duckdb_requires(catalog_name, "'root_path'"@))
    } else {
        None
    }
}

/// The format of local files in small letters: the model's, else the catalog's, else Parquet.
pub open spec fn local_file_format(model: Model, settings: DuckdbView) -> Seq<char> {
    let configured = or_else(
        model.text(FIELD_FILE_FORMAT@, AdapterType::DuckDB),
        settings.file_format,
    );
    lowercase(
        match configured {
            Some(configured) => configured,
            None => "parquet"@,
        },
    )
}

/// The properties of a relation in local files.
pub open spec fn local_properties(settings: DuckdbView) -> Map<Seq<char>, Seq<char>> {
    with_property(Map::empty(), ADAPTER_PROP_EXTERNAL_ROOT@, settings.root_path)
}

/// The refusal of a relation in an attached catalog.
pub open spec fn attached_refusal(catalog: CatalogSpecV2View, catalog_name: Seq<char>) -> Option<
    ErrorView,
> {
    match catalog.block("duckdb"@) {
        Some(block) => attached_values_refusal(duckdb_settings(block), catalog_name),
        None => Some(missing_block(catalog_name, "duckdb"@)),
    }
}

/// The refusal of a relation in DuckLake.
pub open spec fn ducklake_refusal(catalog: CatalogSpecV2View, catalog_name: Seq<char>) -> Option<
    ErrorView,
> {
    match catalog.block("duckdb"@) {
        Some(block) => ducklake_values_refusal(duckdb_settings(block), catalog_name),
        None => Some(missing_block(catalog_name, "duckdb"@)),
    }
}

/// The refusal of a relation in local files.
pub open spec fn local_refusal(catalog: CatalogSpecV2View, catalog_name: Seq<char>) -> Option<
    ErrorView,
> {
    match catalog.block("duckdb"@) {
        Some(block) => local_values_refusal(duckdb_settings(block), catalog_name),
        None => Some(missing_block(catalog_name, "duckdb"@)),
    }
}

/// The name under which the catalog's database is attached.
pub fn attached_name(settings: &DuckdbSettings, catalog_name: &str) -> (r: String)
    ensures
        r@ == attached_as(settings@, catalog_name@),
{
    match &settings.attach_as {
        Some(name) => sanitize_duckdb_identifier(name.as_str()),
        None => sanitize_duckdb_identifier(catalog_name),
    }
}

fn missing_setting(catalog_name: &str, what: &str) -> (r: AdapterError)
    ensures
        r@ == duckdb_requires(catalog_name@, what@),
{
    AdapterError::configuration(
        "Catalog '".to_owned().concat(catalog_name).concat("' duckdb config requires ").concat(
            what,
        ),
    )
}

fn copied(text: &Option<String>) -> (r: Option<String>)
    ensures
        text_of(r) == text_of(*text),
{
    match text {
        Some(text) => Some(text.clone()),
        None => None,
    }
}

impl CatalogRelation {
    fn duckdb(
        catalog_type: V2CatalogType,
        table_format: String,
        catalog_name: &str,
        file_format: Option<String>,
        properties: AdapterProperties,
    ) -> (r: CatalogRelation)
        ensures
            r@ == duckdb_relation(
                catalog_type,
                table_format@,
                catalog_name@,
                text_of(file_format),
                properties@,
            ),
    {
        CatalogRelation {
            adapter_type: AdapterType::DuckDB,
            catalog_name: Some(catalog_name.to_owned()),
            integration_name: None,
            catalog_type: catalog_type.as_str().to_owned(),
            table_format,
            file_format,
            external_volume: None,
            base_location: None,
            adapter_properties: properties,
            is_transient: None,
        }
    }

    /// A relation in an attached catalog, where it can be reached.
    pub fn duckdb_attached(
        settings: &DuckdbSettings,
        catalog_type: V2CatalogType,
        table_format: String,
        catalog_name: &str,
    ) -> (r: AdapterResult<CatalogRelation>)
        ensures
            builds(
                r,
                attached_values_refusal(settings@, catalog_name@),
                duckdb_relation(
                    catalog_type,
                    table_format@,
                    catalog_name@,
                    None,
                    attached_properties(settings@, catalog_name@),
                ),
            ),
    {
        if settings.endpoint.is_none() && settings.endpoint_type.is_none() {
            return Err(missing_setting(catalog_name, "'endpoint' or 'endpoint_type'"));
        }
        let mut properties: AdapterProperties = AdapterProperties::new();
        properties.insert_text("endpoint", copied(&settings.endpoint));
        properties.insert_text("endpoint_type", copied(&settings.endpoint_type));
        properties.insert_text("warehouse", copied(&settings.warehouse));
        properties.insert_text("secret", copied(&settings.secret));
        properties.insert("attached_database".to_owned(), attached_name(settings, catalog_name));
        Ok(Self::duckdb(catalog_type, table_format, catalog_name, None, properties))
    }

    /// The relation of a model that selects an attached catalog.
    pub fn build_duckdb_with_catalogs_v2(
        _model: &Model,
        catalog: &CatalogSpecV2View,
        catalog_name: &str,
    ) -> (r: AdapterResult<CatalogRelation>)
        ensures
            builds(
                r,
                attached_refusal(*catalog, catalog_name@),
                duckdb_relation(
                    catalog.catalog_type,
                    uppercase(catalog.table_format@),
                    catalog_name@,
                    None,
                    attached_properties(
                        duckdb_settings(catalog.block("duckdb"@)->0),
                        catalog_name@,
                    ),
                ),
            ),
    {
        match require_platform_block(catalog, catalog_name, "duckdb") {
            Ok(block) => Self::duckdb_attached(
                &DuckdbSettings::read(block),
                catalog.catalog_type,
                uppercase_table_format(catalog),
                catalog_name,
            ),
            Err(e) => Err(e),
        }
    }

    /// A relation in DuckLake, where its metadata is known.
    pub fn duckdb_ducklake(
        settings: &DuckdbSettings,
        catalog_type: V2CatalogType,
        table_format: String,
        catalog_name: &str,
    ) -> (r: AdapterResult<CatalogRelation>)
        ensures
            builds(
                r,
                ducklake_values_refusal(settings@, catalog_name@),
                duckdb_relation(
                    catalog_type,
                    table_format@,
                    catalog_name@,
                    None,
                    ducklake_properties(settings@, catalog_name@),
                ),
            ),
    {
        let mut properties: AdapterProperties = AdapterProperties::new();
        match &settings.metadata_path {
            Some(path) => properties.insert("metadata_path".to_owned(), path.clone()),
            None => return Err(missing_setting(catalog_name, "'metadata_path'")),
        }
        properties.insert_text("data_path", copied(&settings.data_path));
        properties.insert(
            "catalog_linked_database".to_owned(),
            attached_name(settings, catalog_name),
        );
        Ok(Self::duckdb(catalog_type, table_format, catalog_name, None, properties))
    }

    /// The relation of a model that selects a DuckLake catalog.
    pub fn build_duckdb_ducklake_with_catalogs_v2(
        _model: &Model,
        catalog: &CatalogSpecV2View,
        catalog_name: &str,
    ) -> (r: AdapterResult<CatalogRelation>)
        ensures
            builds(
                r,
                ducklake_refusal(*catalog, catalog_name@),
                duckdb_relation(
                    catalog.catalog_type,
                    uppercase(catalog.table_format@),
                    catalog_name@,
                    None,
                    ducklake_properties(
                        duckdb_settings(catalog.block("duckdb"@)->0),
                        catalog_name@,
                    ),
                ),
            ),
    {
        match require_platform_block(catalog, catalog_name, "duckdb") {
            Ok(block) => Self::duckdb_ducklake(
                &DuckdbSettings::read(block),
                catalog.catalog_type,
                uppercase_table_format(catalog),
                catalog_name,
            ),
            Err(e) => Err(e),
        }
    }

    /// A relation in local files, where their directory is known.
    pub fn duckdb_local_filesystem(
        model: &Model,
        settings: &DuckdbSettings,
        catalog_type: V2CatalogType,
        table_format: String,
        catalog_name: &str,
    ) -> (r: AdapterResult<CatalogRelation>)
        ensures
            builds(
                r,
                local_values_refusal(settings@, catalog_name@),
                duckdb_relation(
                    catalog_type,
                    table_format@,
                    catalog_name@,
                    Some(local_file_format(*model, settings@)),
                    local_properties(settings@),
                ),
            ),
    {
        let mut properties: AdapterProperties = AdapterProperties::new();
        match &settings.root_path {
            Some(path) => properties.insert(ADAPTER_PROP_EXTERNAL_ROOT.to_owned(), path.clone()),
            None => return Err(missing_setting(catalog_name, "'root_path'")),
        }
        let format: String = match model.text_or(
            FIELD_FILE_FORMAT,
            AdapterType::DuckDB,
            &settings.file_format,
        ) {
            Some(configured) => ascii_lowercase(configured.as_str()),
            None => ascii_lowercase("parquet"),
        };
        Ok(Self::duckdb(catalog_type, table_format, catalog_name, Some(format), properties))
    }

    /// The relation of a model that selects a catalog of local files.
    pub fn build_duckdb_local_filesystem_with_catalogs_v2(
        model: &Model,
        catalog: &CatalogSpecV2View,
        catalog_name: &str,
    ) -> (r: AdapterResult<CatalogRelation>)
        ensures
            builds(
                r,
                local_refusal(*catalog, catalog_name@),
                duckdb_relation(
                    catalog.catalog_type,
                    uppercase(catalog.table_format@),
                    catalog_name@,
                    Some(
                        local_file_format(*model, duckdb_settings(catalog.block("duckdb"@)->0)),
                    ),
                    local_properties(duckdb_settings(catalog.block("duckdb"@)->0)),
                ),
            ),
    {
        match require_platform_block(catalog, catalog_name, "duckdb") {
            Ok(block) => Self::duckdb_local_filesystem(
                model,
                &DuckdbSettings::read(block),
                catalog.catalog_type,
                uppercase_table_format(catalog),
                catalog_name,
            ),
            Err(e) => Err(e),
        }
    }
}

} // verus!
