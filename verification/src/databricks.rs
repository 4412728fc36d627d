//! Databricks relations, in Unity Catalog and in a Hive metastore.

use dbt_yaml::Mapping;
use vstd::prelude::*;
use vstd::string::*;

use crate::adapter::{configuration_error, AdapterError, AdapterResult, AdapterType, ErrorView};
use crate::catalogs::{
    databricks_file_format, is_valid_databricks_file_format, missing_block, require_platform_block,
    CatalogSpecV2View, UniformMode, V2FileFormat,
};
use crate::fields::{
    ADAPTER_PROP_LOCATION_ROOT, ADAPTER_PROP_USE_UNIFORM, FIELD_FILE_FORMAT, FIELD_LOCATION_ROOT,
    FIELD_USE_UNIFORM,
};
use crate::model::{
    hive_fields_refusal, parse_model_bool, reject_unsupported_databricks_hive_v2_model_fields,
    Model,
};
use crate::properties::{with_property, AdapterProperties};
use crate::relation::{
    builds, CatalogRelation, RelationView, DATABRICKS_HIVE_METASTORE, DATABRICKS_UNITY_CATALOG,
    DELTA_TABLE_FORMAT,
};
use crate::text::{
    ascii_lowercase, blank, bool_text, bool_to_text, is_blank, lowercase, or_else, text_of,
};
use crate::yaml::{get_yaml_bool, get_yaml_str, yaml_bool, yaml_str};

verus! {

/// What a catalog configures for Databricks.
pub struct DatabricksSettings {
    pub file_format: Option<String>,
    pub location_root: Option<String>,
    pub use_uniform: Option<bool>,
}

/// The settings as contracts speak of them.
pub struct DatabricksView {
    pub file_format: Option<Seq<char>>,
    pub location_root: Option<Seq<char>>,
    pub use_uniform: Option<bool>,
}

impl View for DatabricksSettings {
    type V = DatabricksView;

    open spec fn view(&self) -> DatabricksView {
        DatabricksView {
            file_format: text_of(self.file_format),
            location_root: text_of(self.location_root),
            use_uniform: self.use_uniform,
        }
    }
}

/// The settings that stand in `block`.
pub open spec fn databricks_settings(block: Mapping) -> DatabricksView {
    DatabricksView {
        file_format: yaml_str(block, FIELD_FILE_FORMAT@),
        location_root: yaml_str(block, FIELD_LOCATION_ROOT@),
        use_uniform: yaml_bool(block, FIELD_USE_UNIFORM@),
    }
}

impl DatabricksSettings {
    /// The settings that stand in `block`.
    pub fn read(block: &Mapping) -> (r: DatabricksSettings)
        ensures
            r@ == databricks_settings(*block),
    {
        DatabricksSettings {
            file_format: get_yaml_str(block, FIELD_FILE_FORMAT),
            location_root: get_yaml_str(block, FIELD_LOCATION_ROOT),
            use_uniform: get_yaml_bool(block, FIELD_USE_UNIFORM),
        }
    }
}

/// The file format of the relation in small letters: the model's, else the catalog's, else Delta.
pub open spec fn file_format(model: Model, settings: DatabricksView) -> Seq<char> {
    let configured = or_else(
        model.text(FIELD_FILE_FORMAT@, AdapterType::Databricks),
        settings.file_format,
    );
    lowercase(
        match configured {
            Some(configured) => configured,
            None => DELTA_TABLE_FORMAT@,
        },
    )
}

/// The directory under which the table is to be stored: the model's, else the catalog's.
pub open spec fn location_root(model: Model, settings: DatabricksView) -> Option<Seq<char>> {
    or_else(model.text(FIELD_LOCATION_ROOT@, AdapterType::Databricks), settings.location_root)
}

/// Whether UniForm is wanted: what the model says, else the catalog, else not.
pub open spec fn use_uniform(model: Model, settings: DatabricksView) -> bool {
    or_else(model.flag(FIELD_USE_UNIFORM@, AdapterType::Databricks), settings.use_uniform) == Some(
        true,
    )
}

/// The refusal of a location root.
pub open spec fn location_refusal(location_root: Option<Seq<char>>) -> Option<ErrorView> {
    match location_root {
        Some(root) => if is_blank(root) {
            Some(configuration_error("Databricks v2 location_root cannot be blank or whitespace"@))
        } else {
            None
        },
        None => None,
    }
}

/// The refusal of a file format, with or without UniForm: Delta needs UniForm, Parquet rules it
/// out, and there is nothing else.
pub open spec fn unity_format_refusal(file_format: Seq<char>, use_uniform: bool) -> Option<
    ErrorView,
> {
    match V2FileFormat::named(file_format) {
        None => Some(configuration_error(V2FileFormat::unknown(file_format))),
        Some(V2FileFormat::Delta) => if use_uniform {
            None
        } else {
            Some(
                configuration_error(
                    "Databricks v2 unity use_uniform: false (or unset) requires file_format: parquet"@,
                ),
            )
        },
        Some(V2FileFormat::Parquet) => if use_uniform {
            Some(
                configuration_error(
                    "Databricks v2 unity use_uniform: true requires file_format: delta"@,
                ),
            )
        } else {
            None
        },
        Some(V2FileFormat::Hudi) => Some(
            configuration_error(
                "Databricks v2 unity does not support file_format 'hudi' (use delta or parquet)"@,
            ),
        ),
    }
}

/// The refusal of what a Unity relation cannot have.
pub open spec fn unity_values_refusal(model: Model, settings: DatabricksView) -> Option<ErrorView> {
    or_else(
        model.flag_refusal(FIELD_USE_UNIFORM@, AdapterType::Databricks),
        or_else(
            location_refusal(location_root(model, settings)),
            unity_format_refusal(file_format(model, settings), use_uniform(model, settings)),
        ),
    )
}

/// A relation in Unity Catalog. `external_volume` is the directory of the table under the
/// location root, and means nothing where there is none.
pub open spec fn unity_relation(
    model: Model,
    settings: DatabricksView,
    table_format: Seq<char>,
    catalog_name: Seq<char>,
    external_volume: Option<Seq<char>>,
) -> RelationView {
    RelationView {
        adapter_type: AdapterType::Databricks,
        catalog_name: Some(catalog_name),
        integration_name: None,
        catalog_type: DATABRICKS_UNITY_CATALOG@,
        table_format,
        file_format: Some(file_format(model, settings)),
        external_volume: if location_root(model, settings) is Some {
            external_volume
        } else {
            None
        },
        base_location: None,
        adapter_properties: with_property(
            Map::empty(),
            ADAPTER_PROP_LOCATION_ROOT@,
            location_root(model, settings),
        ).insert(ADAPTER_PROP_USE_UNIFORM@, bool_text(use_uniform(model, settings))),
        is_transient: None,
    }
}

/// The refusal of a Unity relation.
pub open spec fn unity_refusal(
    model: Model,
    catalog: CatalogSpecV2View,
    catalog_name: Seq<char>,
) -> Option<ErrorView> {
    match catalog.block("databricks"@) {
        Some(block) => unity_values_refusal(model, databricks_settings(block)),
        None => Some(missing_block(catalog_name, "databricks"@)),
    }
}

/// The refusal of what a Hive relation cannot have.
pub open spec fn hive_format_refusal(file_format: Seq<char>) -> Option<ErrorView> {
    if databricks_file_format(file_format) {
        None
    } else {
        Some(
            configuration_error(
                "Databricks v2 hive_metastore file_format must be one of (delta|parquet|hudi)"@,
            ),
        )
    }
}

/// A relation in a Hive metastore.
pub open spec fn hive_relation(
    model: Model,
    settings: DatabricksView,
    table_format: Seq<char>,
    catalog_name: Seq<char>,
) -> RelationView {
    RelationView {
        adapter_type: AdapterType::Databricks,
        catalog_name: Some(catalog_name),
        integration_name: None,
        catalog_type: DATABRICKS_HIVE_METASTORE@,
        table_format,
        file_format: Some(file_format(model, settings)),
        external_volume: None,
        base_location: None,
        adapter_properties: Map::empty(),
        is_transient: None,
    }
}

/// The refusal of a Hive relation.
pub open spec fn hive_refusal(
    model: Model,
    catalog: CatalogSpecV2View,
    catalog_name: Seq<char>,
) -> Option<ErrorView> {
    or_else(
        hive_fields_refusal(model),
        match catalog.block("databricks"@) {
            Some(block) => hive_format_refusal(file_format(model, databricks_settings(block))),
            None => Some(missing_block(catalog_name, "databricks"@)),
        },
    )
}

/// The file format of the relation in small letters.
pub fn file_format_of(model: &Model, settings: &DatabricksSettings) -> (r: String)
    ensures
        r@ == file_format(*model, settings@),
{
    match model.text_or(FIELD_FILE_FORMAT, AdapterType::Databricks, &settings.file_format) {
        Some(configured) => ascii_lowercase(configured.as_str()),
        None => ascii_lowercase(DELTA_TABLE_FORMAT),
    }
}

/// The directory under which the table is to be stored.
pub fn location_root_of(model: &Model, settings: &DatabricksSettings) -> (r: Option<String>)
    ensures
        text_of(r) == location_root(*model, settings@),
{
    model.text_or(FIELD_LOCATION_ROOT, AdapterType::Databricks, &settings.location_root)
}

impl CatalogRelation {
    /// A relation in Unity Catalog, where the values are such as it can have.
    pub fn databricks_unity(
        model: &Model,
        settings: &DatabricksSettings,
        table_format: String,
        catalog_name: &str,
        external_volume: Option<String>,
    ) -> (r: AdapterResult<CatalogRelation>)
        ensures
            builds(
                r,
                unity_values_refusal(*model, settings@),
                unity_relation(
                    *model,
                    settings@,
                    table_format@,
                    catalog_name@,
                    text_of(external_volume),
                ),
            ),
    {
        let format: String = file_format_of(model, settings);
        let root: Option<String> = location_root_of(model, settings);
        let wanted: Option<bool> = match parse_model_bool(
            model,
            FIELD_USE_UNIFORM,
            AdapterType::Databricks,
        ) {
            Ok(flag) => if flag.is_some() { flag } else { settings.use_uniform },
            Err(e) => return Err(e),
        };
        let uniform: UniformMode = UniformMode::from_bool(wanted.unwrap_or(false));
        let mut properties: AdapterProperties = AdapterProperties::new();
        let mut volume: Option<String> = None;
        if let Some(root) = root {
            if blank(root.as_str()) {
                return Err(
                    AdapterError::configuration(
                        "Databricks v2 location_root cannot be blank or whitespace".to_owned(),
                    ),
                );
            }
            volume = external_volume;
            properties.insert(ADAPTER_PROP_LOCATION_ROOT.to_owned(), root);
        }
        let parsed: V2FileFormat = match V2FileFormat::parse(format.as_str()) {
            Ok(parsed) => parsed,
            Err(message) => return Err(AdapterError::configuration(message)),
        };
        match (parsed, uniform) {
            (V2FileFormat::Delta, UniformMode::Enabled) => {},
            (V2FileFormat::Parquet, UniformMode::Disabled) => {},
            (V2FileFormat::Delta, UniformMode::Disabled) => return Err(
                AdapterError::configuration(
                    "Databricks v2 unity use_uniform: false (or unset) requires file_format: parquet".to_owned(),
                ),
            ),
            (V2FileFormat::Parquet, UniformMode::Enabled) => return Err(
                AdapterError::configuration(
                    "Databricks v2 unity use_uniform: true requires file_format: delta".to_owned(),
                ),
            ),
            (V2FileFormat::Hudi, _) => return Err(
                AdapterError::configuration(
                    "Databricks v2 unity does not support file_format 'hudi' (use delta or parquet)".to_owned(),
                ),
            ),
        }
        properties.insert(
            ADAPTER_PROP_USE_UNIFORM.to_owned(),
            bool_to_text(uniform.is_enabled()),
        );
        Ok(
            CatalogRelation {
                adapter_type: AdapterType::Databricks,
                catalog_name: Some(catalog_name.to_owned()),
                integration_name: None,
                catalog_type: DATABRICKS_UNITY_CATALOG.to_owned(),
                table_format,
                file_format: Some(format),
                external_volume: volume,
                base_location: None,
                adapter_properties: properties,
                is_transient: None,
            },
        )
    }

    /// The relation of a model that selects a Unity catalog. `external_volume` is the directory
    /// of the table under the location root.
    pub fn build_databricks_unity_with_catalogs_v2(
        model: &Model,
        catalog: &CatalogSpecV2View,
        catalog_name: &str,
        external_volume: Option<String>,
    ) -> (r: AdapterResult<CatalogRelation>)
        ensures
            builds(
                r,
                unity_refusal(*model, *catalog, catalog_name@),
                unity_relation(
                    *model,
                    databricks_settings(catalog.block("databricks"@)->0),
                    catalog.table_format@,
                    catalog_name@,
                    text_of(external_volume),
                ),
            ),
    {
        match require_platform_block(catalog, catalog_name, "databricks") {
            Ok(block) => Self::databricks_unity(
                model,
                &DatabricksSettings::read(block),
                catalog.table_format.clone(),
                catalog_name,
                external_volume,
            ),
            Err(e) => Err(e),
        }
    }

    /// A relation in a Hive metastore, where the values are such as it can have.
    pub fn databricks_hive(
        model: &Model,
        settings: &DatabricksSettings,
        table_format: String,
        catalog_name: &str,
    ) -> (r: AdapterResult<CatalogRelation>)
        ensures
            builds(
                r,
                hive_format_refusal(file_format(*model, settings@)),
                hive_relation(*model, settings@, table_format@, catalog_name@),
            ),
    {
        let format: String = file_format_of(model, settings);
        if !is_valid_databricks_file_format(format.as_str()) {
            return Err(
                AdapterError::configuration(
                    "Databricks v2 hive_metastore file_format must be one of (delta|parquet|hudi)".to_owned(),
                ),
            );
        }
        Ok(
            CatalogRelation {
                adapter_type: AdapterType::Databricks,
                catalog_name: Some(catalog_name.to_owned()),
                integration_name: None,
                catalog_type: DATABRICKS_HIVE_METASTORE.to_owned(),
                table_format,
                file_format: Some(format),
                external_volume: None,
                base_location: None,
                adapter_properties: AdapterProperties::new(),
                is_transient: None,
            },
        )
    }

    /// The relation of a model that selects a Hive metastore.
    pub fn build_databricks_hive_with_catalogs_v2(
        model: &Model,
        catalog: &CatalogSpecV2View,
        catalog_name: &str,
    ) -> (r: AdapterResult<CatalogRelation>)
        ensures
            builds(
                r,
                hive_refusal(*model, *catalog, catalog_name@),
                hive_relation(
                    *model,
                    databricks_settings(catalog.block("databricks"@)->0),
                    catalog.table_format@,
                    catalog_name@,
                ),
            ),
    {
        if let Err(e) = reject_unsupported_databricks_hive_v2_model_fields(model) {
            return Err(e);
        }
        match require_platform_block(catalog, catalog_name, "databricks") {
            Ok(block) => Self::databricks_hive(
                model,
                &DatabricksSettings::read(block),
                catalog.table_format.clone(),
                catalog_name,
            ),
            Err(e) => Err(e),
        }
    }
}

} // verus!
