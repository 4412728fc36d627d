//! The names of configuration fields and of adapter properties.

use vstd::prelude::*;

verus! {

pub const FIELD_CATALOG_NAME: &'static str = "catalog_name";

pub const FIELD_CATALOG_TYPE: &'static str = "catalog_type";

pub const FIELD_TABLE_FORMAT: &'static str = "table_format";

pub const FIELD_EXTERNAL_VOLUME: &'static str = "external_volume";

pub const FIELD_BASE_LOCATION_ROOT: &'static str = "base_location_root";

pub const FIELD_BASE_LOCATION_SUBPATH: &'static str = "base_location_subpath";

pub const FIELD_TRANSIENT: &'static str = "transient";

pub const FIELD_CHANGE_TRACKING: &'static str = "change_tracking";

pub const FIELD_DATA_RETENTION_TIME_IN_DAYS: &'static str = "data_retention_time_in_days";

pub const FIELD_STORAGE_SERIALIZATION_POLICY: &'static str = "storage_serialization_policy";

pub const FIELD_ICEBERG_VERSION: &'static str = "iceberg_version";

pub const FIELD_FILE_FORMAT: &'static str = "file_format";

pub const FIELD_LOCATION_ROOT: &'static str = "location_root";

pub const FIELD_USE_UNIFORM: &'static str = "use_uniform";

pub const FIELD_AUTO_REFRESH: &'static str = "auto_refresh";

pub const FIELD_MAX_DATA_EXTENSION_TIME_IN_DAYS: &'static str = "max_data_extension_time_in_days";

pub const FIELD_TARGET_FILE_SIZE: &'static str = "target_file_size";

pub const FIELD_STORAGE_URI: &'static str = "storage_uri";

pub const FIELD_CONNECTION_ID: &'static str = "connection_id";

pub const FIELD_SCHEMA: &'static str = "schema";

pub const FIELD_ALIAS: &'static str = "alias";

pub const FIELD_IDENTIFIER: &'static str = "identifier";

pub const ADAPTER_PROP_LOCATION_ROOT: &'static str = "location_root";

pub const ADAPTER_PROP_USE_UNIFORM: &'static str = "use_uniform";

pub const ADAPTER_PROP_CATALOG_DATABASE: &'static str = "catalog_database";

pub const ADAPTER_PROP_AUTO_REFRESH: &'static str = "auto_refresh";

pub const ADAPTER_PROP_MAX_DATA_EXTENSION_TIME_IN_DAYS: &'static str =
    "max_data_extension_time_in_days";

pub const ADAPTER_PROP_TARGET_FILE_SIZE: &'static str = "target_file_size";

pub const ADAPTER_PROP_EXTERNAL_ROOT: &'static str = "external_root";

/// The catalog name by which a model says that it wants no catalog.
pub const MODEL_NONE_SENTINEL: &'static str = "none";

} // verus!
