//! Snowflake relations: in the built-in Horizon catalog, and in linked catalogs.

use dbt_yaml::Mapping;
use vstd::prelude::*;
use vstd::string::*;

use crate::adapter::{configuration_error, AdapterError, AdapterResult, AdapterType, ErrorView};
use crate::catalogs::{
    missing_block, require_platform_block, uppercase_table_format, CatalogSpecV2View,
};
use crate::fields::{
    ADAPTER_PROP_AUTO_REFRESH, ADAPTER_PROP_CATALOG_DATABASE,
    ADAPTER_PROP_MAX_DATA_EXTENSION_TIME_IN_DAYS, ADAPTER_PROP_TARGET_FILE_SIZE, FIELD_AUTO_REFRESH,
    FIELD_BASE_LOCATION_ROOT, FIELD_BASE_LOCATION_SUBPATH, FIELD_CHANGE_TRACKING,
    FIELD_DATA_RETENTION_TIME_IN_DAYS, FIELD_EXTERNAL_VOLUME, FIELD_ICEBERG_VERSION,
    FIELD_MAX_DATA_EXTENSION_TIME_IN_DAYS, FIELD_SCHEMA, FIELD_STORAGE_SERIALIZATION_POLICY,
    FIELD_TARGET_FILE_SIZE,
};
use crate::model::{
    linked_fields_refusal, parse_model_bool, parse_model_u32, reject_transient,
    reject_unsupported_snowflake_linked_v2_model_fields, transient_refusal, Model,
};
use crate::properties::{flag_text, number_text, with_property, AdapterProperties};
use crate::relation::{base_location, builds, CatalogRelation, CatalogType, RelationView};
use crate::text::{or_else, text_of, uppercase};
use crate::yaml::{get_yaml_bool, get_yaml_str, get_yaml_u32, yaml_bool, yaml_str, yaml_u32};

verus! {

/// What a catalog configures for Snowflake.
pub struct SnowflakeSettings {
    pub catalog_database: Option<String>,
    pub external_volume: Option<String>,
    pub base_location_root: Option<String>,
    pub change_tracking: Option<bool>,
    pub data_retention_time_in_days: Option<u32>,
    pub max_data_extension_time_in_days: Option<u32>,
    pub storage_serialization_policy: Option<String>,
    pub iceberg_version: Option<String>,
    pub auto_refresh: Option<bool>,
    pub target_file_size: Option<String>,
}

/// The settings as contracts speak of them.
pub struct SnowflakeView {
    pub catalog_database: Option<Seq<char>>,
    pub external_volume: Option<Seq<char>>,
    pub base_location_root: Option<Seq<char>>,
    pub change_tracking: Option<bool>,
    pub data_retention_time_in_days: Option<u32>,
    pub max_data_extension_time_in_days: Option<u32>,
    pub storage_serialization_policy: Option<Seq<char>>,
    pub iceberg_version: Option<Seq<char>>,
    pub auto_refresh: Option<bool>,
    pub target_file_size: Option<Seq<char>>,
}

impl View for SnowflakeSettings {
    type V = SnowflakeView;

    open spec fn view(&self) -> SnowflakeView {
        SnowflakeView {
            catalog_database: text_of(self.catalog_database),
            external_volume: text_of(self.external_volume),
            base_location_root: text_of(self.base_location_root),
            change_tracking: self.change_tracking,
            data_retention_time_in_days: self.data_retention_time_in_days,
            max_data_extension_time_in_days: self.max_data_extension_time_in_days,
            storage_serialization_policy: text_of(self.storage_serialization_policy),
            iceberg_version: text_of(self.iceberg_version),
            auto_refresh: self.auto_refresh,
            target_file_size: text_of(self.target_file_size),
        }
    }
}

/// The settings that stand in `block`.
pub open spec fn snowflake_settings(block: Mapping) -> SnowflakeView {
    SnowflakeView {
        catalog_database: yaml_str(block, ADAPTER_PROP_CATALOG_DATABASE@),
        external_volume: yaml_str(block, FIELD_EXTERNAL_VOLUME@),
        base_location_root: yaml_str(block, FIELD_BASE_LOCATION_ROOT@),
        change_tracking: yaml_bool(block, FIELD_CHANGE_TRACKING@),
        data_retention_time_in_days: yaml_u32(block, FIELD_DATA_RETENTION_TIME_IN_DAYS@),
        max_data_extension_time_in_days: yaml_u32(block, FIELD_MAX_DATA_EXTENSION_TIME_IN_DAYS@),
        storage_serialization_policy: yaml_str(block, FIELD_STORAGE_SERIALIZATION_POLICY@),
        iceberg_version: yaml_str(block, FIELD_ICEBERG_VERSION@),
        auto_refresh: yaml_bool(block, FIELD_AUTO_REFRESH@),
        target_file_size: yaml_str(block, FIELD_TARGET_FILE_SIZE@),
    }
}

impl SnowflakeSettings {
    /// The settings that stand in `block`.
    pub fn read(block: &Mapping) -> (r: SnowflakeSettings)
        ensures
            r@ == snowflake_settings(*block),
    {
        SnowflakeSettings {
            catalog_database: get_yaml_str(block, ADAPTER_PROP_CATALOG_DATABASE),
            external_volume: get_yaml_str(block, FIELD_EXTERNAL_VOLUME),
            base_location_root: get_yaml_str(block, FIELD_BASE_LOCATION_ROOT),
            change_tracking: get_yaml_bool(block, FIELD_CHANGE_TRACKING),
            data_retention_time_in_days: get_yaml_u32(block, FIELD_DATA_RETENTION_TIME_IN_DAYS),
            max_data_extension_time_in_days: get_yaml_u32(
                block,
                FIELD_MAX_DATA_EXTENSION_TIME_IN_DAYS,
            ),
            storage_serialization_policy: get_yaml_str(block, FIELD_STORAGE_SERIALIZATION_POLICY),
            iceberg_version: get_yaml_str(block, FIELD_ICEBERG_VERSION),
            auto_refresh: get_yaml_bool(block, FIELD_AUTO_REFRESH),
            target_file_size: get_yaml_str(block, FIELD_TARGET_FILE_SIZE),
        }
    }
}

/// The refusal of a value that a Horizon relation cannot have.
pub open spec fn horizon_values_refusal(model: Model) -> Option<ErrorView> {
    let adapter = AdapterType::Snowflake;
    or_else(
        model.flag_refusal(FIELD_CHANGE_TRACKING@, adapter),
        or_else(
            model.number_refusal(FIELD_DATA_RETENTION_TIME_IN_DAYS@, adapter),
            model.number_refusal(FIELD_MAX_DATA_EXTENSION_TIME_IN_DAYS@, adapter),
        ),
    )
}

/// The properties of a Horizon relation: what the model says, else what the catalog says.
pub open spec fn horizon_properties(model: Model, settings: SnowflakeView) -> Map<
    Seq<char>,
    Seq<char>,
> {
    let adapter = AdapterType::Snowflake;
    let tracking = with_property(
        Map::empty(),
        FIELD_CHANGE_TRACKING@,
        flag_text(or_else(model.flag(FIELD_CHANGE_TRACKING@, adapter), settings.change_tracking)),
    );
    let retained = with_property(
        tracking,
        FIELD_DATA_RETENTION_TIME_IN_DAYS@,
        number_text(
            or_else(
                model.number(FIELD_DATA_RETENTION_TIME_IN_DAYS@, adapter),
                settings.data_retention_time_in_days,
            ),
        ),
    );
    let extended = with_property(
        retained,
        FIELD_MAX_DATA_EXTENSION_TIME_IN_DAYS@,
        number_text(
            or_else(
                model.number(FIELD_MAX_DATA_EXTENSION_TIME_IN_DAYS@, adapter),
                settings.max_data_extension_time_in_days,
            ),
        ),
    );
    let serialized = with_property(
        extended,
        FIELD_STORAGE_SERIALIZATION_POLICY@,
        or_else(
            model.text(FIELD_STORAGE_SERIALIZATION_POLICY@, adapter),
            settings.storage_serialization_policy,
        ),
    );
    with_property(
        serialized,
        FIELD_ICEBERG_VERSION@,
        or_else(model.text(FIELD_ICEBERG_VERSION@, adapter), settings.iceberg_version),
    )
}

/// A relation in the built-in catalog.
pub open spec fn horizon_relation(
    model: Model,
    settings: SnowflakeView,
    table_format: Seq<char>,
    catalog_name: Seq<char>,
) -> RelationView {
    let adapter = AdapterType::Snowflake;
    RelationView {
        adapter_type: adapter,
        catalog_name: Some(catalog_name),
        integration_name: None,
        catalog_type: CatalogType::SnowflakeBuiltIn.word(),
        table_format,
        file_format: None,
        external_volume: or_else(
            model.text(FIELD_EXTERNAL_VOLUME@, adapter),
            settings.external_volume,
        ),
        base_location: Some(
            base_location(
                or_else(model.text(FIELD_BASE_LOCATION_ROOT@, adapter), settings.base_location_root),
                model.text(FIELD_BASE_LOCATION_SUBPATH@, adapter),
                model.text(FIELD_SCHEMA@, adapter),
                model.table_name(adapter),
            ),
        ),
        adapter_properties: horizon_properties(model, settings),
        is_transient: Some(false),
    }
}

/// The refusal of a Horizon relation.
pub open spec fn horizon_refusal(
    model: Model,
    catalog: CatalogSpecV2View,
    catalog_name: Seq<char>,
) -> Option<ErrorView> {
    or_else(
        transient_refusal(model),
        if catalog.block("snowflake"@) is None {
            Some(missing_block(catalog_name, "snowflake"@))
        } else {
            horizon_values_refusal(model)
        },
    )
}

impl CatalogRelation {
    /// A relation in the built-in catalog, where the model's values are such as it can have.
    pub fn horizon(
        model: &Model,
        settings: &SnowflakeSettings,
        table_format: String,
        catalog_name: &str,
    ) -> (r: AdapterResult<CatalogRelation>)
        ensures
            builds(
                r,
                horizon_values_refusal(*model),
                horizon_relation(*model, settings@, table_format@, catalog_name@),
            ),
    {
        let adapter: AdapterType = AdapterType::Snowflake;
        let external_volume: Option<String> = model.text_or(
            FIELD_EXTERNAL_VOLUME,
            adapter,
            &settings.external_volume,
        );
        let root: Option<String> = model.text_or(
            FIELD_BASE_LOCATION_ROOT,
            adapter,
            &settings.base_location_root,
        );
        let subpath: Option<String> = model.get_model_config_value(
            FIELD_BASE_LOCATION_SUBPATH,
            adapter,
        );
        let schema: Option<String> = model.get_model_config_value(FIELD_SCHEMA, adapter);
        let identifier: Option<String> = model.get_table_name(adapter);
        let location: String = Self::build_base_location(&root, &subpath, &schema, &identifier);

        let mut properties: AdapterProperties = AdapterProperties::new();
        let change_tracking: Option<bool> = match parse_model_bool(
            model,
            FIELD_CHANGE_TRACKING,
            adapter,
        ) {
            Ok(flag) => if flag.is_some() { flag } else { settings.change_tracking },
            Err(e) => return Err(e),
        };
        properties.insert_flag(FIELD_CHANGE_TRACKING, change_tracking);
        let data_retention: Option<u32> = match parse_model_u32(
            model,
            FIELD_DATA_RETENTION_TIME_IN_DAYS,
            adapter,
        ) {
            Ok(days) => if days.is_some() { days } else { settings.data_retention_time_in_days },
            Err(e) => return Err(e),
        };
        properties.insert_number(FIELD_DATA_RETENTION_TIME_IN_DAYS, data_retention);
        let max_data_extension: Option<u32> = match parse_model_u32(
            model,
            FIELD_MAX_DATA_EXTENSION_TIME_IN_DAYS,
            adapter,
        ) {
            Ok(days) => if days.is_some() { days } else { settings.max_data_extension_time_in_days },
            Err(e) => return Err(e),
        };
        properties.insert_number(FIELD_MAX_DATA_EXTENSION_TIME_IN_DAYS, max_data_extension);
        let policy: Option<String> = model.text_or(
            FIELD_STORAGE_SERIALIZATION_POLICY,
            adapter,
            &settings.storage_serialization_policy,
        );
        properties.insert_text(FIELD_STORAGE_SERIALIZATION_POLICY, policy);
        let iceberg_version: Option<String> = model.text_or(
            FIELD_ICEBERG_VERSION,
            adapter,
            &settings.iceberg_version,
        );
        properties.insert_text(FIELD_ICEBERG_VERSION, iceberg_version);

        Ok(
            CatalogRelation {
                adapter_type: adapter,
                catalog_name: Some(catalog_name.to_owned()),
                integration_name: None,
                catalog_type: CatalogType::SnowflakeBuiltIn.as_str().to_owned(),
                table_format,
                external_volume,
                base_location: Some(location),
                adapter_properties: properties,
                is_transient: Some(false),
                file_format: None,
            },
        )
    }

    /// The relation of a model that selects a Horizon catalog.
    pub fn build_horizon_with_catalogs_v2(
        model: &Model,
        catalog: &CatalogSpecV2View,
        catalog_name: &str,
    ) -> (r: AdapterResult<CatalogRelation>)
        ensures
            builds(
                r,
                horizon_refusal(*model, *catalog, catalog_name@),
                horizon_relation(
                    *model,
                    snowflake_settings(catalog.block("snowflake"@)->0),
                    uppercase(catalog.table_format@),
                    catalog_name@,
                ),
            ),
    {
        if let Err(e) = reject_transient(model) {
            return Err(e);
        }
        match require_platform_block(catalog, catalog_name, "snowflake") {
            Ok(block) => Self::horizon(
                model,
                &SnowflakeSettings::read(block),
                uppercase_table_format(catalog),
                catalog_name,
            ),
            Err(e) => Err(e),
        }
    }
}

/// The refusal of what a linked relation must have or cannot have.
pub open spec fn linked_values_refusal(
    model: Model,
    settings: SnowflakeView,
    catalog_name: Seq<char>,
    catalog_kind: Seq<char>,
) -> Option<ErrorView> {
    let adapter = AdapterType::Snowflake;
    if settings.catalog_database is None {
        Some(
            configuration_error(
                "Catalog '"@ + catalog_name + "' "@ + catalog_kind
                    + "/snowflake requires catalog_database"@,
            ),
        )
    } else {
        or_else(
            model.flag_refusal(FIELD_AUTO_REFRESH@, adapter),
            model.number_refusal(FIELD_MAX_DATA_EXTENSION_TIME_IN_DAYS@, adapter),
        )
    }
}

/// The properties of a linked relation: the catalog's database, and else what the model says, or
/// what the catalog says where the model is silent.
pub open spec fn linked_properties(model: Model, settings: SnowflakeView) -> Map<
    Seq<char>,
    Seq<char>,
> {
    let adapter = AdapterType::Snowflake;
    let in_database = with_property(
        Map::empty(),
        ADAPTER_PROP_CATALOG_DATABASE@,
        settings.catalog_database,
    );
    let refreshed = with_property(
        in_database,
        ADAPTER_PROP_AUTO_REFRESH@,
        flag_text(or_else(model.flag(FIELD_AUTO_REFRESH@, adapter), settings.auto_refresh)),
    );
    let extended = with_property(
        refreshed,
        ADAPTER_PROP_MAX_DATA_EXTENSION_TIME_IN_DAYS@,
        number_text(
            or_else(
                model.number(FIELD_MAX_DATA_EXTENSION_TIME_IN_DAYS@, adapter),
                settings.max_data_extension_time_in_days,
            ),
        ),
    );
    let sized = with_property(
        extended,
        ADAPTER_PROP_TARGET_FILE_SIZE@,
        or_else(model.text(FIELD_TARGET_FILE_SIZE@, adapter), settings.target_file_size),
    );
    with_property(
        sized,
        FIELD_ICEBERG_VERSION@,
        or_else(model.text(FIELD_ICEBERG_VERSION@, adapter), settings.iceberg_version),
    )
}

/// A relation in a linked catalog.
pub open spec fn linked_relation(
    model: Model,
    settings: SnowflakeView,
    table_format: Seq<char>,
    catalog_name: Seq<char>,
) -> RelationView {
    RelationView {
        adapter_type: AdapterType::Snowflake,
        catalog_name: Some(catalog_name),
        integration_name: None,
        catalog_type: CatalogType::SnowflakeIcebergRest.word(),
        table_format,
        file_format: None,
        external_volume: None,
        base_location: None,
        adapter_properties: linked_properties(model, settings),
        is_transient: Some(false),
    }
}

/// The refusal of a linked relation.
pub open spec fn linked_refusal(
    model: Model,
    catalog: CatalogSpecV2View,
    catalog_name: Seq<char>,
    catalog_kind: Seq<char>,
) -> Option<ErrorView> {
    or_else(
        linked_fields_refusal(model, catalog_kind),
        match catalog.block("snowflake"@) {
            Some(block) => linked_values_refusal(
                model,
                snowflake_settings(block),
                catalog_name,
                catalog_kind,
            ),
            None => Some(missing_block(catalog_name, "snowflake"@)),
        },
    )
}

impl CatalogRelation {
    /// A relation in a linked catalog, where the values are such as it must and can have.
    pub fn snowflake_linked(
        model: &Model,
        settings: &SnowflakeSettings,
        table_format: String,
        catalog_name: &str,
        catalog_kind: &str,
    ) -> (r: AdapterResult<CatalogRelation>)
        ensures
            builds(
                r,
                linked_values_refusal(*model, settings@, catalog_name@, catalog_kind@),
                linked_relation(*model, settings@, table_format@, catalog_name@),
            ),
    {
        let adapter: AdapterType = AdapterType::Snowflake;
        let mut properties: AdapterProperties = AdapterProperties::new();
        match &settings.catalog_database {
            Some(database) => properties.insert(
                ADAPTER_PROP_CATALOG_DATABASE.to_owned(),
                database.clone(),
            ),
            None => return Err(
                AdapterError::configuration(
                    "Catalog '".to_owned().concat(catalog_name).concat("' ").concat(
                        catalog_kind,
                    ).concat("/snowflake requires catalog_database"),
                ),
            ),
        }
        let auto_refresh: Option<bool> = match parse_model_bool(
            model,
            FIELD_AUTO_REFRESH,
            adapter,
        ) {
            Ok(flag) => if flag.is_some() { flag } else { settings.auto_refresh },
            Err(e) => return Err(e),
        };
        properties.insert_flag(ADAPTER_PROP_AUTO_REFRESH, auto_refresh);
        let max_data_extension: Option<u32> = match parse_model_u32(
            model,
            FIELD_MAX_DATA_EXTENSION_TIME_IN_DAYS,
            adapter,
        ) {
            Ok(days) => if days.is_some() { days } else { settings.max_data_extension_time_in_days },
            Err(e) => return Err(e),
        };
        properties.insert_number(ADAPTER_PROP_MAX_DATA_EXTENSION_TIME_IN_DAYS, max_data_extension);
        let target_file_size: Option<String> = model.text_or(
            FIELD_TARGET_FILE_SIZE,
            adapter,
            &settings.target_file_size,
        );
        properties.insert_text(ADAPTER_PROP_TARGET_FILE_SIZE, target_file_size);
        let iceberg_version: Option<String> = model.text_or(
            FIELD_ICEBERG_VERSION,
            adapter,
            &settings.iceberg_version,
        );
        properties.insert_text(FIELD_ICEBERG_VERSION, iceberg_version);

        Ok(
            CatalogRelation {
                adapter_type: adapter,
                catalog_name: Some(catalog_name.to_owned()),
                integration_name: None,
                catalog_type: CatalogType::SnowflakeIcebergRest.as_str().to_owned(),
                table_format,
                external_volume: None,
                base_location: None,
                adapter_properties: properties,
                is_transient: Some(false),
                file_format: None,
            },
        )
    }

    /// The relation of a model that selects a linked catalog of the kind `catalog_kind`.
    pub fn build_snowflake_linked_with_catalogs_v2(
        model: &Model,
        catalog: &CatalogSpecV2View,
        catalog_name: &str,
        catalog_kind: &str,
    ) -> (r: AdapterResult<CatalogRelation>)
        ensures
            builds(
                r,
                linked_refusal(*model, *catalog, catalog_name@, catalog_kind@),
                linked_relation(
                    *model,
                    snowflake_settings(catalog.block("snowflake"@)->0),
                    uppercase(catalog.table_format@),
                    catalog_name@,
                ),
            ),
    {
        if let Err(e) = reject_unsupported_snowflake_linked_v2_model_fields(model, catalog_kind) {
            return Err(e);
        }
        match require_platform_block(catalog, catalog_name, "snowflake") {
            Ok(block) => Self::snowflake_linked(
                model,
                &SnowflakeSettings::read(block),
                uppercase_table_format(catalog),
                catalog_name,
                catalog_kind,
            ),
            Err(e) => Err(e),
        }
    }
}

} // verus!
