//! BigQuery relations, in a BigLake metastore.

use dbt_yaml::Mapping;
use vstd::prelude::*;
use vstd::string::*;

use crate::adapter::{configuration_error, AdapterError, AdapterResult, AdapterType, ErrorView};
use crate::catalogs::{missing_block, require_platform_block, CatalogSpecV2View};
use crate::fields::{
    FIELD_BASE_LOCATION_ROOT, FIELD_BASE_LOCATION_SUBPATH, FIELD_CONNECTION_ID,
    FIELD_EXTERNAL_VOLUME, FIELD_FILE_FORMAT, FIELD_SCHEMA, FIELD_STORAGE_URI,
};
use crate::model::Model;
use crate::properties::{with_property, AdapterProperties};
use crate::relation::{
    base_location, builds, CatalogRelation, RelationView, BIGQUERY_BIGLAKE_METASTORE,
};
use crate::text::{
    ascii_lowercase, blank, eq_ignore_ascii_case, is_blank, lowercase, or_else, same_ignoring_case,
    starts_with, text_of,
};
use crate::yaml::{get_yaml_str, yaml_str};

verus! {

/// What a catalog configures for BigQuery.
pub struct BigquerySettings {
    pub external_volume: Option<String>,
    pub file_format: Option<String>,
    pub base_location_root: Option<String>,
    pub connection_id: Option<String>,
}

/// The settings as contracts speak of them.
pub struct BigqueryView {
    pub external_volume: Option<Seq<char>>,
    pub file_format: Option<Seq<char>>,
    pub base_location_root: Option<Seq<char>>,
    pub connection_id: Option<Seq<char>>,
}

impl View for BigquerySettings {
    type V = BigqueryView;

    open spec fn view(&self) -> BigqueryView {
        BigqueryView {
            external_volume: text_of(self.external_volume),
            file_format: text_of(self.file_format),
            base_location_root: text_of(self.base_location_root),
            connection_id: text_of(self.connection_id),
        }
    }
}

/// The settings that stand in `block`.
pub open spec fn bigquery_settings(block: Mapping) -> BigqueryView {
    BigqueryView {
        external_volume: yaml_str(block, FIELD_EXTERNAL_VOLUME@),
        file_format: yaml_str(block, FIELD_FILE_FORMAT@),
        base_location_root: yaml_str(block, FIELD_BASE_LOCATION_ROOT@),
        connection_id: yaml_str(block, FIELD_CONNECTION_ID@),
    }
}

impl BigquerySettings {
    /// The settings that stand in `block`.
    pub fn read(block: &Mapping) -> (r: BigquerySettings)
        ensures
            r@ == bigquery_settings(*block),
    {
        BigquerySettings {
            external_volume: get_yaml_str(block, FIELD_EXTERNAL_VOLUME),
            file_format: get_yaml_str(block, FIELD_FILE_FORMAT),
            base_location_root: get_yaml_str(block, FIELD_BASE_LOCATION_ROOT),
            connection_id: get_yaml_str(block, FIELD_CONNECTION_ID),
        }
    }
}

/// The bucket of the relation: the model's, else the catalog's.
pub open spec fn biglake_volume(model: Model, settings: BigqueryView) -> Option<Seq<char>> {
    or_else(
        model.text(FIELD_EXTERNAL_VOLUME@, AdapterType::Bigquery),
        settings.external_volume,
    )
}

/// The file format of the relation: the model's, else the catalog's.
pub open spec fn biglake_file_format(model: Model, settings: BigqueryView) -> Option<Seq<char>> {
    or_else(model.text(FIELD_FILE_FORMAT@, AdapterType::Bigquery), settings.file_format)
}

/// The root of the base location: the model's, else the catalog's.
pub open spec fn biglake_root(model: Model, settings: BigqueryView) -> Option<Seq<char>> {
    or_else(
        model.text(FIELD_BASE_LOCATION_ROOT@, AdapterType::Bigquery),
        settings.base_location_root,
    )
}

/// An error about the settings of a BigLake catalog.
pub open spec fn biglake_error(catalog_name: Seq<char>, problem: Seq<char>) -> ErrorView {
    configuration_error(
        "Catalog '"@ + catalog_name + "' biglake_metastore/bigquery "@ + problem,
    )
}

/// The refusal of a bucket.
pub open spec fn volume_refusal(volume: Option<Seq<char>>, catalog_name: Seq<char>) -> Option<
    ErrorView,
> {
    match volume {
        None => Some(biglake_error(catalog_name, "requires external_volume"@)),
        Some(volume) => if is_blank(volume) {
            Some(biglake_error(catalog_name, "external_volume cannot be blank"@))
        } else if !"gs://"@.is_prefix_of(volume) {
            Some(biglake_error(catalog_name, "external_volume must start with gs://"@))
        } else {
            None
        },
    }
}

/// The refusal of a file format.
pub open spec fn biglake_format_refusal(
    file_format: Option<Seq<char>>,
    catalog_name: Seq<char>,
) -> Option<ErrorView> {
    match file_format {
        None => Some(biglake_error(catalog_name, "requires file_format"@)),
        Some(file_format) => if !same_ignoring_case(file_format, "parquet"@) {
            Some(biglake_error(catalog_name, "file_format must be parquet"@))
        } else {
            None
        },
    }
}

/// The refusal of a root for the base location.
pub open spec fn root_refusal(root: Option<Seq<char>>) -> Option<ErrorView> {
    match root {
        Some(root) => if is_blank(root) {
            Some(
                configuration_error(
                    "Bigquery v2 base_location_root cannot be blank or whitespace"@,
                ),
            )
        } else {
            None
        },
        None => None,
    }
}

/// The refusal of what a BigLake relation must have or cannot have.
pub open spec fn biglake_values_refusal(
    model: Model,
    settings: BigqueryView,
    catalog_name: Seq<char>,
) -> Option<ErrorView> {
    or_else(
        volume_refusal(biglake_volume(model, settings), catalog_name),
        or_else(
            biglake_format_refusal(biglake_file_format(model, settings), catalog_name),
            root_refusal(biglake_root(model, settings)),
        ),
    )
}

/// Where the table is stored: what the model says, else the base location in the bucket.
pub open spec fn storage_uri(model: Model, settings: BigqueryView) -> Seq<char> {
    let adapter = AdapterType::Bigquery;
    match model.text(FIELD_STORAGE_URI@, adapter) {
        Some(uri) => uri,
        None => biglake_volume(model, settings)->0 + "/"@ + base_location(
            biglake_root(model, settings),
            model.text(FIELD_BASE_LOCATION_SUBPATH@, adapter),
            model.text(FIELD_SCHEMA@, adapter),
            model.table_name(adapter),
        ),
    }
}

/// A relation in a BigLake metastore.
pub open spec fn biglake_relation(
    model: Model,
    settings: BigqueryView,
    table_format: Seq<char>,
    catalog_name: Seq<char>,
) -> RelationView {
    let adapter = AdapterType::Bigquery;
    RelationView {
        adapter_type: adapter,
        catalog_name: Some(catalog_name),
        integration_name: None,
        catalog_type: BIGQUERY_BIGLAKE_METASTORE@,
        table_format,
        file_format: Some(lowercase(biglake_file_format(model, settings)->0)),
        external_volume: None,
        base_location: None,
        adapter_properties: with_property(
            Map::empty(),
            FIELD_CONNECTION_ID@,
            or_else(model.text(FIELD_CONNECTION_ID@, adapter), settings.connection_id),
        ).insert(FIELD_STORAGE_URI@, storage_uri(model, settings)),
        is_transient: None,
    }
}

/// The refusal of a BigLake relation.
pub open spec fn biglake_refusal(
    model: Model,
    catalog: CatalogSpecV2View,
    catalog_name: Seq<char>,
) -> Option<ErrorView> {
    match catalog.block("bigquery"@) {
        Some(block) => biglake_values_refusal(model, bigquery_settings(block), catalog_name),
        None => Some(missing_block(catalog_name, "bigquery"@)),
    }
}

fn biglake_problem(catalog_name: &str, problem: &str) -> (r: AdapterError)
    ensures
        r@ == biglake_error(catalog_name@, problem@),
{
    AdapterError::configuration(
        "Catalog '".to_owned().concat(catalog_name).concat("' biglake_metastore/bigquery ").concat(
            problem,
        ),
    )
}

impl CatalogRelation {
    /// A relation in a BigLake metastore, where the values are such as it must and can have.
    pub fn bigquery_biglake(
        model: &Model,
        settings: &BigquerySettings,
        table_format: String,
        catalog_name: &str,
    ) -> (r: AdapterResult<CatalogRelation>)
        ensures
            builds(
                r,
                biglake_values_refusal(*model, settings@, catalog_name@),
                biglake_relation(*model, settings@, table_format@, catalog_name@),
            ),
    {
        let adapter: AdapterType = AdapterType::Bigquery;
        let external_volume: String = match model.text_or(
            FIELD_EXTERNAL_VOLUME,
            adapter,
            &settings.external_volume,
        ) {
            Some(volume) => volume,
            None => return Err(biglake_problem(catalog_name, "requires external_volume")),
        };
        if blank(external_volume.as_str()) {
            return Err(biglake_problem(catalog_name, "external_volume cannot be blank"));
        }
        if !starts_with(external_volume.as_str(), "gs://") {
            return Err(biglake_problem(catalog_name, "external_volume must start with gs://"));
        }
        let file_format: String = match model.text_or(
            FIELD_FILE_FORMAT,
            adapter,
            &settings.file_format,
        ) {
            Some(file_format) => file_format,
            None => return Err(biglake_problem(catalog_name, "requires file_format")),
        };
        if !eq_ignore_ascii_case(file_format.as_str(), "parquet") {
            return Err(biglake_problem(catalog_name, "file_format must be parquet"));
        }
        let root: Option<String> = model.text_or(
            FIELD_BASE_LOCATION_ROOT,
            adapter,
            &settings.base_location_root,
        );
        if let Some(root) = &root {
            if blank(root.as_str()) {
                return Err(
                    AdapterError::configuration(
                        "Bigquery v2 base_location_root cannot be blank or whitespace".to_owned(),
                    ),
                );
            }
        }
        let subpath: Option<String> = model.get_model_config_value(
            FIELD_BASE_LOCATION_SUBPATH,
            adapter,
        );
        let schema: Option<String> = model.get_model_config_value(FIELD_SCHEMA, adapter);
        let identifier: Option<String> = model.get_table_name(adapter);
        let location: String = Self::build_base_location(&root, &subpath, &schema, &identifier);

        let connection_id: Option<String> = model.text_or(
            FIELD_CONNECTION_ID,
            adapter,
            &settings.connection_id,
        );
        let uri: String = match model.get_model_config_value(FIELD_STORAGE_URI, adapter) {
            Some(uri) => uri,
            None => external_volume.concat("/").concat(location.as_str()),
        };
        let mut properties: AdapterProperties = AdapterProperties::new();
        properties.insert_text(FIELD_CONNECTION_ID, connection_id);
        properties.insert(FIELD_STORAGE_URI.to_owned(), uri);

        Ok(
            CatalogRelation {
                adapter_type: adapter,
                catalog_name: Some(catalog_name.to_owned()),
                integration_name: None,
                catalog_type: BIGQUERY_BIGLAKE_METASTORE.to_owned(),
                table_format,
                adapter_properties: properties,
                is_transient: None,
                external_volume: None,
                base_location: None,
                file_format: Some(ascii_lowercase(file_format.as_str())),
            },
        )
    }

    /// The relation of a model that selects a BigLake catalog.
    pub fn build_bigquery_biglake_with_catalogs_v2(
        model: &Model,
        catalog: &CatalogSpecV2View,
        catalog_name: &str,
    ) -> (r: AdapterResult<CatalogRelation>)
        ensures
            builds(
                r,
                biglake_refusal(*model, *catalog, catalog_name@),
                biglake_relation(
                    *model,
                    bigquery_settings(catalog.block("bigquery"@)->0),
                    catalog.table_format@,
                    catalog_name@,
                ),
            ),
    {
        match require_platform_block(catalog, catalog_name, "bigquery") {
            Ok(block) => Self::bigquery_biglake(
                model,
                &BigquerySettings::read(block),
                catalog.table_format.clone(),
                catalog_name,
            ),
            Err(e) => Err(e),
        }
    }
}

} // verus!
