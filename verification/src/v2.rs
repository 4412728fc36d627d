//! The relation that a model gets under version two of `catalogs.yml`.

use vstd::prelude::*;
use vstd::string::*;

use crate::adapter::{
    configuration_error, internal_error, AdapterError, AdapterErrorKind, AdapterResult, AdapterType,
    ErrorView,
};
use crate::bigquery::{biglake_refusal, biglake_relation, bigquery_settings};
use crate::catalogs::{
    find_catalog, find_v2_catalog, parse_v2_view, unknown_catalog, CatalogSpecV2View,
    DbtCatalogsV2View, V2CatalogType,
};
use crate::databricks::{
    databricks_settings, hive_refusal, hive_relation, location_refusal, location_root,
    location_root_of, unity_refusal, unity_relation, DatabricksSettings,
};
use crate::duckdb::{
    attached_properties, attached_refusal, duckdb_relation, duckdb_settings, ducklake_properties,
    ducklake_refusal, local_file_format, local_properties, local_refusal,
};
use crate::fields::{FIELD_CATALOG_TYPE, FIELD_TABLE_FORMAT, FIELD_USE_UNIFORM};
use crate::model::{model_catalog_name, parse_model_bool, Model};
use crate::relation::{
    duckdb_default, CatalogRelation, RelationView, DBX_ICEBERG_TABLE_FORMAT, ICEBERG_TABLE_FORMAT,
};
use crate::snowflake::{
    horizon_refusal, horizon_relation, linked_refusal, linked_relation, snowflake_settings,
};
use crate::text::{blank, eq_ignore_ascii_case, same_ignoring_case, text_of, uppercase};

verus! {

/// What the project's other rules have settled about a model.
pub struct ProjectContext {
    /// The relation of a Databricks model that selects no catalog.
    pub databricks_default: CatalogRelation,
    /// The relation of a BigQuery model that selects no catalog.
    pub bigquery_default: CatalogRelation,
    /// The relation of a Snowflake model that selects no catalog, from its configuration alone.
    pub without_catalogs_yml: AdapterResult<CatalogRelation>,
    /// The directory of a Databricks table under its location root, where it has one: see
    /// `unity_location_root`.
    pub external_volume: Option<String>,
}

/// What a request for a relation gave, as contracts speak of it.
pub open spec fn outcome_of(r: AdapterResult<CatalogRelation>) -> Result<RelationView, ErrorView> {
    match r {
        Ok(relation) => Ok(relation@),
        Err(e) => Err(e@),
    }
}

/// `relation`, or the error `refusal` where there is one.
pub open spec fn outcome(refusal: Option<ErrorView>, relation: RelationView) -> Result<
    RelationView,
    ErrorView,
> {
    match refusal {
        Some(e) => Err(e),
        None => Ok(relation),
    }
}

/// Whether the model asks for the table format `format`, in small letters or capitals.
pub open spec fn wants_format(model: Model, adapter_type: AdapterType, format: Seq<char>) -> bool {
    match model.text(FIELD_TABLE_FORMAT@, adapter_type) {
        Some(text) => same_ignoring_case(text, format),
        None => false,
    }
}

/// What a model gets that selects no catalog.
pub open spec fn unselected_outcome(
    adapter_type: AdapterType,
    model: Model,
    context: ProjectContext,
) -> Result<RelationView, ErrorView> {
    match adapter_type {
        AdapterType::Databricks => if wants_format(
            model,
            adapter_type,
            DBX_ICEBERG_TABLE_FORMAT@,
        ) {
            Err(
                configuration_error(
                    "On Databricks, table_format=iceberg requires a `catalog_name` to select a v2 catalog (unity or hive_metastore)."@,
                ),
            )
        } else {
            Ok(context.databricks_default@)
        },
        AdapterType::Bigquery => if wants_format(model, adapter_type, ICEBERG_TABLE_FORMAT@) {
            Err(
                configuration_error(
                    "On Bigquery, table_format=iceberg requires catalogs.yml and a `catalog_name` that selects a v2 catalog."@,
                ),
            )
        } else {
            Ok(context.bigquery_default@)
        },
        AdapterType::Snowflake => outcome_of(context.without_catalogs_yml),
        AdapterType::DuckDB => Ok(duckdb_default()),
        AdapterType::Other(name) => Err(no_relations(name@)),
    }
}

/// The error for an adapter that has no catalog relations.
pub open spec fn no_relations(adapter_name: Seq<char>) -> ErrorView {
    internal_error("build_relation_catalog cannot be invoked by an adapter "@ + adapter_name)
}

/// The error for a catalog of a kind that the adapter does not support.
pub open spec fn unsupported_catalog(
    catalog: CatalogSpecV2View,
    catalog_name: Seq<char>,
    supported: Seq<char>,
) -> ErrorView {
    configuration_error(
        "Catalog '"@ + catalog_name + "' has type '"@ + catalog.catalog_type.word() + "'; "@
            + supported,
    )
}

/// What a Databricks model gets that selects `catalog`.
pub open spec fn databricks_outcome(
    model: Model,
    catalog: CatalogSpecV2View,
    name: Seq<char>,
    external_volume: Option<Seq<char>>,
) -> Result<RelationView, ErrorView> {
    let settings = databricks_settings(catalog.block("databricks"@)->0);
    match catalog.catalog_type {
        V2CatalogType::Unity => outcome(
            unity_refusal(model, catalog, name),
            unity_relation(model, settings, catalog.table_format@, name, external_volume),
        ),
        V2CatalogType::HiveMetastore => outcome(
            hive_refusal(model, catalog, name),
            hive_relation(model, settings, catalog.table_format@, name),
        ),
        _ => Err(
            unsupported_catalog(
                catalog,
                name,
                "Databricks v2 mapping supports only 'unity' and 'hive_metastore'"@,
            ),
        ),
    }
}

/// What a Snowflake model gets that selects `catalog`.
pub open spec fn snowflake_outcome(
    model: Model,
    catalog: CatalogSpecV2View,
    name: Seq<char>,
) -> Result<RelationView, ErrorView> {
    let settings = snowflake_settings(catalog.block("snowflake"@)->0);
    let table_format = uppercase(catalog.table_format@);
    match catalog.catalog_type {
        V2CatalogType::Horizon => outcome(
            horizon_refusal(model, catalog, name),
            horizon_relation(model, settings, table_format, name),
        ),
        V2CatalogType::Glue | V2CatalogType::IcebergRest | V2CatalogType::Unity => outcome(
            linked_refusal(model, catalog, name, catalog.catalog_type.word()),
            linked_relation(model, settings, table_format, name),
        ),
        _ => Err(
            unsupported_catalog(
                catalog,
                name,
                "Snowflake v2 mapping supports only 'horizon', 'glue', 'iceberg_rest', and 'unity'"@,
            ),
        ),
    }
}

/// What a BigQuery model gets that selects `catalog`.
pub open spec fn bigquery_outcome(
    model: Model,
    catalog: CatalogSpecV2View,
    name: Seq<char>,
) -> Result<RelationView, ErrorView> {
    let settings = bigquery_settings(catalog.block("bigquery"@)->0);
    match catalog.catalog_type {
        V2CatalogType::BiglakeMetastore => outcome(
            biglake_refusal(model, catalog, name),
            biglake_relation(model, settings, catalog.table_format@, name),
        ),
        _ => Err(
            unsupported_catalog(
                catalog,
                name,
                "Bigquery v2 mapping supports only 'biglake_metastore'"@,
            ),
        ),
    }
}

/// What a DuckDB model gets that selects `catalog`.
pub open spec fn duckdb_outcome(model: Model, catalog: CatalogSpecV2View, name: Seq<char>) -> Result<
    RelationView,
    ErrorView,
> {
    let settings = duckdb_settings(catalog.block("duckdb"@)->0);
    let kind = catalog.catalog_type;
    let table_format = uppercase(catalog.table_format@);
    match kind {
        V2CatalogType::Glue | V2CatalogType::IcebergRest => outcome(
            attached_refusal(catalog, name),
            duckdb_relation(kind, table_format, name, None, attached_properties(settings, name)),
        ),
        V2CatalogType::DuckLake => outcome(
            ducklake_refusal(catalog, name),
            duckdb_relation(kind, table_format, name, None, ducklake_properties(settings, name)),
        ),
        V2CatalogType::LocalFilesystem => outcome(
            local_refusal(catalog, name),
            duckdb_relation(
                kind,
                table_format,
                name,
                Some(local_file_format(model, settings)),
                local_properties(settings),
            ),
        ),
        _ => Err(
            unsupported_catalog(
                catalog,
                name,
                "DuckDB v2 mapping supports only 'glue', 'iceberg_rest', 'ducklake', and 'local_filesystem'"@,
            ),
        ),
    }
}

/// What a model gets that selects `catalog`, which `catalogs.yml` defines.
pub open spec fn catalog_outcome(
    adapter_type: AdapterType,
    model: Model,
    catalog: CatalogSpecV2View,
    name: Seq<char>,
    external_volume: Option<Seq<char>>,
) -> Result<RelationView, ErrorView> {
    match adapter_type {
        AdapterType::Databricks => databricks_outcome(model, catalog, name, external_volume),
        AdapterType::Snowflake => snowflake_outcome(model, catalog, name),
        AdapterType::Bigquery => bigquery_outcome(model, catalog, name),
        AdapterType::DuckDB => duckdb_outcome(model, catalog, name),
        AdapterType::Other(adapter_name) => Err(no_relations(adapter_name@)),
    }
}

/// What a model gets that selects the catalog `name`.
pub open spec fn selected_outcome(
    adapter_type: AdapterType,
    model: Model,
    catalogs: Result<DbtCatalogsV2View, String>,
    name: Seq<char>,
    external_volume: Option<Seq<char>>,
) -> Result<RelationView, ErrorView> {
    match catalogs {
        Err(message) => Err(configuration_error(message@)),
        Ok(view) => match find_catalog(view.catalogs@, name) {
            None => Err(unknown_catalog(name)),
            Some(catalog) => if model.has(FIELD_CATALOG_TYPE@, adapter_type) {
                Err(
                    configuration_error(
                        "catalog_type may only be specified in write integration entries of catalogs.yml"@,
                    ),
                )
            } else {
                catalog_outcome(adapter_type, model, catalog, name, external_volume)
            },
        },
    }
}

/// What a model gets.
pub open spec fn v2_outcome(
    adapter_type: AdapterType,
    model: Model,
    catalogs: Result<DbtCatalogsV2View, String>,
    context: ProjectContext,
) -> Result<RelationView, ErrorView> {
    if model.has_adapter_properties(adapter_type) {
        Err(
            configuration_error(
                "catalogs.yml v2 supports top-level model overrides only; model adapter_properties are not supported"@,
            ),
        )
    } else if adapter_type is Other {
        Err(no_relations(adapter_type->Other_0@))
    } else {
        match model.selected_catalog(adapter_type) {
            None => unselected_outcome(adapter_type, model, context),
            Some(name) => selected_outcome(
                adapter_type,
                model,
                catalogs,
                name,
                text_of(context.external_volume),
            ),
        }
    }
}

fn asks_for_format(model: &Model, adapter_type: AdapterType, format: &str) -> (r: bool)
    ensures
        r == wants_format(*model, adapter_type, format@),
{
    match model.get_model_config_value(FIELD_TABLE_FORMAT, adapter_type) {
        Some(text) => eq_ignore_ascii_case(text.as_str(), format),
        None => false,
    }
}

fn no_relations_for(adapter_name: &str) -> (r: AdapterError)
    ensures
        r@ == no_relations(adapter_name@),
{
    AdapterError::new(
        AdapterErrorKind::Internal,
        "build_relation_catalog cannot be invoked by an adapter ".to_owned().concat(adapter_name),
    )
}

fn unsupported(catalog: &CatalogSpecV2View, catalog_name: &str, supported: &str) -> (r: AdapterError)
    ensures
        r@ == unsupported_catalog(*catalog, catalog_name@, supported@),
{
    AdapterError::configuration(
        "Catalog '".to_owned().concat(catalog_name).concat("' has type '").concat(
            catalog.catalog_type.as_str(),
        ).concat("'; ").concat(supported),
    )
}

/// The relation of a model that selects `catalog`, which `catalogs.yml` defines.
pub fn relation_in_catalog(
    adapter_type: AdapterType,
    model: &Model,
    catalog: &CatalogSpecV2View,
    catalog_name: &str,
    external_volume: Option<String>,
) -> (r: AdapterResult<CatalogRelation>)
    ensures
        outcome_of(r) == catalog_outcome(
            adapter_type,
            *model,
            *catalog,
            catalog_name@,
            text_of(external_volume),
        ),
{
    match (adapter_type, catalog.catalog_type) {
        (AdapterType::Databricks, V2CatalogType::Unity) => {
            CatalogRelation::build_databricks_unity_with_catalogs_v2(
                model,
                catalog,
                catalog_name,
                external_volume,
            )
        },
        (AdapterType::Databricks, V2CatalogType::HiveMetastore) => {
            CatalogRelation::build_databricks_hive_with_catalogs_v2(model, catalog, catalog_name)
        },
        (AdapterType::Snowflake, V2CatalogType::Horizon) => {
            CatalogRelation::build_horizon_with_catalogs_v2(model, catalog, catalog_name)
        },
        (AdapterType::Snowflake, V2CatalogType::Glue) => {
            CatalogRelation::build_snowflake_linked_with_catalogs_v2(
                model,
                catalog,
                catalog_name,
                "glue",
            )
        },
        (AdapterType::Snowflake, V2CatalogType::IcebergRest) => {
            CatalogRelation::build_snowflake_linked_with_catalogs_v2(
                model,
                catalog,
                catalog_name,
                "iceberg_rest",
            )
        },
        (AdapterType::Snowflake, V2CatalogType::Unity) => {
            CatalogRelation::build_snowflake_linked_with_catalogs_v2(
                model,
                catalog,
                catalog_name,
                "unity",
            )
        },
        (AdapterType::Bigquery, V2CatalogType::BiglakeMetastore) => {
            CatalogRelation::build_bigquery_biglake_with_catalogs_v2(model, catalog, catalog_name)
        },
        (AdapterType::DuckDB, V2CatalogType::Glue)
        | (AdapterType::DuckDB, V2CatalogType::IcebergRest) => {
            CatalogRelation::build_duckdb_with_catalogs_v2(model, catalog, catalog_name)
        },
        (AdapterType::DuckDB, V2CatalogType::DuckLake) => {
            CatalogRelation::build_duckdb_ducklake_with_catalogs_v2(model, catalog, catalog_name)
        },
        (AdapterType::DuckDB, V2CatalogType::LocalFilesystem) => {
            CatalogRelation::build_duckdb_local_filesystem_with_catalogs_v2(
                model,
                catalog,
                catalog_name,
            )
        },
        (AdapterType::DuckDB, _) => Err(
            unsupported(
                catalog,
                catalog_name,
                "DuckDB v2 mapping supports only 'glue', 'iceberg_rest', 'ducklake', and 'local_filesystem'",
            ),
        ),
        (AdapterType::Databricks, _) => Err(
            unsupported(
                catalog,
                catalog_name,
                "Databricks v2 mapping supports only 'unity' and 'hive_metastore'",
            ),
        ),
        (AdapterType::Snowflake, _) => Err(
            unsupported(
                catalog,
                catalog_name,
                "Snowflake v2 mapping supports only 'horizon', 'glue', 'iceberg_rest', and 'unity'",
            ),
        ),
        (AdapterType::Bigquery, _) => Err(
            unsupported(
                catalog,
                catalog_name,
                "Bigquery v2 mapping supports only 'biglake_metastore'",
            ),
        ),
        (AdapterType::Other(name), _) => Err(no_relations_for(name)),
    }
}

/// The relation of a model, from its configuration and from `catalogs.yml` as it was read.
pub fn from_model_config_and_catalogs_v2(
    adapter_type: AdapterType,
    model: &Model,
    catalogs: &Result<DbtCatalogsV2View, String>,
    context: ProjectContext,
) -> (r: AdapterResult<CatalogRelation>)
    ensures
        outcome_of(r) == v2_outcome(adapter_type, *model, *catalogs, context),
{
    if model.has_model_adapter_properties(adapter_type) {
        return Err(
            AdapterError::configuration(
                "catalogs.yml v2 supports top-level model overrides only; model adapter_properties are not supported".to_owned(),
            ),
        );
    }
    let selected: Option<String> = model_catalog_name(model, adapter_type);
    let catalog_name: String = match adapter_type {
        AdapterType::Databricks => match selected {
            None => {
                if asks_for_format(model, adapter_type, DBX_ICEBERG_TABLE_FORMAT) {
                    return Err(
                        AdapterError::configuration(
                            "On Databricks, table_format=iceberg requires a `catalog_name` to select a v2 catalog (unity or hive_metastore).".to_owned(),
                        ),
                    );
                }
                return Ok(context.databricks_default);
            },
            Some(name) => name,
        },
        AdapterType::Snowflake => match selected {
            None => return context.without_catalogs_yml,
            Some(name) => name,
        },
        AdapterType::Bigquery => match selected {
            None => {
                if asks_for_format(model, adapter_type, ICEBERG_TABLE_FORMAT) {
                    return Err(
                        AdapterError::configuration(
                            "On Bigquery, table_format=iceberg requires catalogs.yml and a `catalog_name` that selects a v2 catalog.".to_owned(),
                        ),
                    );
                }
                return Ok(context.bigquery_default);
            },
            Some(name) => name,
        },
        AdapterType::DuckDB => match selected {
            None => return Ok(CatalogRelation::default_catalog_relation_duckdb()),
            Some(name) => name,
        },
        AdapterType::Other(name) => return Err(no_relations_for(name)),
    };
    let view: &DbtCatalogsV2View = match parse_v2_view(catalogs) {
        Ok(view) => view,
        Err(e) => return Err(e),
    };
    let catalog: &CatalogSpecV2View = match find_v2_catalog(view, catalog_name.as_str()) {
        Ok(catalog) => catalog,
        Err(e) => return Err(e),
    };
    if model.is_configured(FIELD_CATALOG_TYPE, adapter_type) {
        return Err(
            AdapterError::configuration(
                "catalog_type may only be specified in write integration entries of catalogs.yml".to_owned(),
            ),
        );
    }
    relation_in_catalog(adapter_type, model, catalog, catalog_name.as_str(), context.external_volume)
}

/// The location root under which a Databricks model's table gets its directory, the context's
/// `external_volume`: that of the Unity catalog's relation, where the relation has one. There is none
/// where the model or the root is refused first; a file format is judged only afterwards.
pub open spec fn asked_location_root(
    model: Model,
    catalogs: Result<DbtCatalogsV2View, String>,
) -> Option<Seq<char>> {
    if model.has_adapter_properties(AdapterType::Databricks) || model.has(
        FIELD_CATALOG_TYPE@,
        AdapterType::Databricks,
    ) || model.flag_refusal(FIELD_USE_UNIFORM@, AdapterType::Databricks) is Some {
        None
    } else {
        match (model.selected_catalog(AdapterType::Databricks), catalogs) {
            (Some(name), Ok(view)) => match find_catalog(view.catalogs@, name) {
                Some(catalog) => match (catalog.catalog_type, catalog.block("databricks"@)) {
                    (V2CatalogType::Unity, Some(block)) => usable_root(
                        location_root(model, databricks_settings(block)),
                    ),
                    _ => None,
                },
                None => None,
            },
            _ => None,
        }
    }
}

/// A location root that is not refused.
pub open spec fn usable_root(root: Option<Seq<char>>) -> Option<Seq<char>> {
    if location_refusal(root) is Some {
        None
    } else {
        root
    }
}

/// The location root under which a Databricks model's table gets its directory.
pub fn unity_location_root(model: &Model, catalogs: &Result<DbtCatalogsV2View, String>) -> (r:
    Option<String>)
    ensures
        text_of(r) == asked_location_root(*model, *catalogs),
{
    if model.has_model_adapter_properties(AdapterType::Databricks) || model.is_configured(
        FIELD_CATALOG_TYPE,
        AdapterType::Databricks,
    ) || parse_model_bool(model, FIELD_USE_UNIFORM, AdapterType::Databricks).is_err() {
        return None;
    }
    let name: String = match model_catalog_name(model, AdapterType::Databricks) {
        Some(name) => name,
        None => return None,
    };
    let view: &DbtCatalogsV2View = match catalogs {
        Ok(view) => view,
        Err(_) => return None,
    };
    let catalog: &CatalogSpecV2View = match find_v2_catalog(view, name.as_str()) {
        Ok(catalog) => catalog,
        Err(_) => return None,
    };
    match (catalog.catalog_type, catalog.config_block("databricks")) {
        (V2CatalogType::Unity, Some(block)) => match location_root_of(
            model,
            &DatabricksSettings::read(block),
        ) {
            Some(root) => if blank(root.as_str()) {
                None
            } else {
                Some(root)
            },
            None => None,
        },
        _ => None,
    }
}

} // verus!
