//! The catalogs that `catalogs.yml` defines.

use dbt_yaml::Mapping;
use vstd::prelude::*;
use vstd::string::*;

use crate::adapter::{configuration_error, reports, AdapterError, AdapterResult, ErrorView};
use crate::text::{ascii_uppercase, eq_ignore_ascii_case, same_ignoring_case, same_text, uppercase};

verus! {

/// The kind of a catalog.
#[derive(Clone, Copy, Debug, PartialEq, Eq, Structural)]
pub enum V2CatalogType {
    Unity,
    HiveMetastore,
    Horizon,
    Glue,
    IcebergRest,
    BiglakeMetastore,
    DuckLake,
    LocalFilesystem,
}

impl V2CatalogType {
    /// The word for this kind in `catalogs.yml`.
    pub open spec fn word(self) -> Seq<char> {
        match self {
            V2CatalogType::Unity => "unity"@,
            V2CatalogType::HiveMetastore => "hive_metastore"@,
            V2CatalogType::Horizon => "horizon"@,
            V2CatalogType::Glue => "glue"@,
            V2CatalogType::IcebergRest => "iceberg_rest"@,
            V2CatalogType::BiglakeMetastore => "biglake_metastore"@,
            V2CatalogType::DuckLake => "ducklake"@,
            V2CatalogType::LocalFilesystem => "local_filesystem"@,
        }
    }

    /// The word for this kind in `catalogs.yml`.
    pub fn as_str(&self) -> (r: &'static str)
        ensures
            r@ == self.word(),
    {
        match self {
            V2CatalogType::Unity => "unity",
            V2CatalogType::HiveMetastore => "hive_metastore",
            V2CatalogType::Horizon => "horizon",
            V2CatalogType::Glue => "glue",
            V2CatalogType::IcebergRest => "iceberg_rest",
            V2CatalogType::BiglakeMetastore => "biglake_metastore",
            V2CatalogType::DuckLake => "ducklake",
            V2CatalogType::LocalFilesystem => "local_filesystem",
        }
    }
}

/// A file format of Databricks tables.
#[derive(Clone, Copy, Debug, PartialEq, Eq, Structural)]
pub enum V2FileFormat {
    Delta,
    Parquet,
    Hudi,
}

impl V2FileFormat {
    /// The format that `word` names.
    pub open spec fn named(word: Seq<char>) -> Option<V2FileFormat> {
        if word == "delta"@ {
            Some(V2FileFormat::Delta)
        } else if word == "parquet"@ {
            Some(V2FileFormat::Parquet)
        } else if word == "hudi"@ {
            Some(V2FileFormat::Hudi)
        } else {
            None
        }
    }

    /// What is said of a word that names no format.
    pub open spec fn unknown(word: Seq<char>) -> Seq<char> {
        "file_format '"@ + word + "' is not one of (delta|parquet|hudi)"@
    }

    /// The format that `word` names.
    pub fn parse(word: &str) -> (r: Result<V2FileFormat, String>)
        ensures
            match r {
                Ok(format) => V2FileFormat::named(word@) == Some(format),
                Err(message) => V2FileFormat::named(word@) is None && message@
                    == V2FileFormat::unknown(word@),
            },
    {
        if same_text(word, "delta") {
            Ok(V2FileFormat::Delta)
        } else if same_text(word, "parquet") {
            Ok(V2FileFormat::Parquet)
        } else if same_text(word, "hudi") {
            Ok(V2FileFormat::Hudi)
        } else {
            Err(
                "file_format '".to_owned().concat(word).concat(
                    "' is not one of (delta|parquet|hudi)",
                ),
            )
        }
    }
}

/// Whether Databricks keeps Iceberg metadata beside a Delta table.
#[derive(Clone, Copy, Debug, PartialEq, Eq, Structural)]
pub enum UniformMode {
    Enabled,
    Disabled,
}

impl UniformMode {
    pub open spec fn of(enabled: bool) -> UniformMode {
        if enabled {
            UniformMode::Enabled
        } else {
            UniformMode::Disabled
        }
    }

    pub fn from_bool(enabled: bool) -> (r: UniformMode)
        ensures
            r == UniformMode::of(enabled),
    {
        if enabled {
            UniformMode::Enabled
        } else {
            UniformMode::Disabled
        }
    }

    pub fn is_enabled(&self) -> (r: bool)
        ensures
            r == (*self == UniformMode::Enabled),
    {
        match self {
            UniformMode::Enabled => true,
            UniformMode::Disabled => false,
        }
    }
}

/// What a catalog configures for one platform.
pub struct PlatformBlock {
    pub platform: String,
    pub block: Mapping,
}

/// One catalog.
pub struct CatalogSpecV2View {
    pub name: String,
    pub catalog_type: V2CatalogType,
    pub table_format: String,
    pub config: Vec<PlatformBlock>,
}

/// The catalogs of a project.
pub struct DbtCatalogsV2View {
    pub catalogs: Vec<CatalogSpecV2View>,
}

/// The first block for `platform`.
pub open spec fn find_block(config: Seq<PlatformBlock>, platform: Seq<char>) -> Option<Mapping>
    decreases config.len(),
{
    if config.len() == 0 {
        None
    } else if config[0].platform@ == platform {
        Some(config[0].block)
    } else {
        find_block(config.drop_first(), platform)
    }
}

/// The first catalog with the name `name`.
pub open spec fn find_catalog(catalogs: Seq<CatalogSpecV2View>, name: Seq<char>) -> Option<
    CatalogSpecV2View,
>
    decreases catalogs.len(),
{
    if catalogs.len() == 0 {
        None
    } else if catalogs[0].name@ == name {
        Some(catalogs[0])
    } else {
        find_catalog(catalogs.drop_first(), name)
    }
}

impl CatalogSpecV2View {
    /// What the catalog configures for `platform`.
    pub open spec fn block(self, platform: Seq<char>) -> Option<Mapping> {
        find_block(self.config@, platform)
    }

    /// What the catalog configures for `platform`.
    pub fn config_block(&self, platform: &str) -> (r: Option<&Mapping>)
        ensures
            match r {
                Some(block) => self.block(platform@) == Some(*block),
                None => self.block(platform@) is None,
            },
    {
        let mut i: usize = 0;
        assert(self.config@.skip(0) =~= self.config@);
        while i < self.config.len()
            invariant
                i <= self.config.len(),
                self.block(platform@) == find_block(self.config@.skip(i as int), platform@),
            decreases self.config.len() - i,
        {
            if same_text(self.config[i].platform.as_str(), platform) {
                return Some(&self.config[i].block);
            }
            assert(self.config@.skip(i as int).drop_first() =~= self.config@.skip(i + 1));
            i += 1;
        }
        None
    }
}

/// The refusal of a `catalogs.yml` that is not well formed.
pub open spec fn view_refusal(catalogs: Result<DbtCatalogsV2View, String>) -> Option<ErrorView> {
    match catalogs {
        Ok(_) => None,
        Err(message) => Some(configuration_error(message@)),
    }
}

/// The catalogs, as reading `catalogs.yml` gave them.
pub fn parse_v2_view(catalogs: &Result<DbtCatalogsV2View, String>) -> (r: AdapterResult<
    &DbtCatalogsV2View,
>)
    ensures
        reports(r, view_refusal(*catalogs)),
        r matches Ok(view) ==> *catalogs == Ok::<DbtCatalogsV2View, String>(*view),
{
    match catalogs {
        Ok(view) => Ok(view),
        Err(message) => Err(AdapterError::configuration(message.clone())),
    }
}

/// The error for a catalog that is not defined.
pub open spec fn unknown_catalog(catalog_name: Seq<char>) -> ErrorView {
    configuration_error("Catalog '"@ + catalog_name + "' not found in catalogs.yml"@)
}

/// The first catalog with the name `catalog_name`.
pub fn find_v2_catalog<'a>(spec: &'a DbtCatalogsV2View, catalog_name: &str) -> (r: AdapterResult<
    &'a CatalogSpecV2View,
>)
    ensures
        match r {
            Ok(catalog) => find_catalog(spec.catalogs@, catalog_name@) == Some(*catalog),
            Err(e) => find_catalog(spec.catalogs@, catalog_name@) is None && e@ == unknown_catalog(
                catalog_name@,
            ),
        },
{
    let mut i: usize = 0;
    assert(spec.catalogs@.skip(0) =~= spec.catalogs@);
    while i < spec.catalogs.len()
        invariant
            i <= spec.catalogs.len(),
            find_catalog(spec.catalogs@, catalog_name@) == find_catalog(
                spec.catalogs@.skip(i as int),
                catalog_name@,
            ),
        decreases spec.catalogs.len() - i,
    {
        if same_text(spec.catalogs[i].name.as_str(), catalog_name) {
            return Ok(&spec.catalogs[i]);
        }
        assert(spec.catalogs@.skip(i as int).drop_first() =~= spec.catalogs@.skip(i + 1));
        i += 1;
    }
    Err(
        AdapterError::configuration(
            "Catalog '".to_owned().concat(catalog_name).concat("' not found in catalogs.yml"),
        ),
    )
}

/// The error for a catalog that configures nothing for `platform`.
pub open spec fn missing_block(catalog_name: Seq<char>, platform: Seq<char>) -> ErrorView {
    configuration_error("Catalog '"@ + catalog_name + "' is missing config."@ + platform)
}

/// What the catalog configures for `platform`, which it must.
pub fn require_platform_block<'a>(
    catalog: &'a CatalogSpecV2View,
    catalog_name: &str,
    platform: &str,
) -> (r: AdapterResult<&'a Mapping>)
    ensures
        match r {
            Ok(block) => catalog.block(platform@) == Some(*block),
            Err(e) => catalog.block(platform@) is None && e@ == missing_block(
                catalog_name@,
                platform@,
            ),
        },
{
    match catalog.config_block(platform) {
        Some(block) => Ok(block),
        None => Err(
            AdapterError::configuration(
                "Catalog '".to_owned().concat(catalog_name).concat("' is missing config.").concat(
                    platform,
                ),
            ),
        ),
    }
}

/// The catalog's table format in capitals.
pub fn uppercase_table_format(catalog: &CatalogSpecV2View) -> (r: String)
    ensures
        r@ == uppercase(catalog.table_format@),
{
    ascii_uppercase(catalog.table_format.as_str())
}

/// Whether `v` names a file format of Databricks tables, in small letters or capitals.
pub open spec fn databricks_file_format(v: Seq<char>) -> bool {
    ||| same_ignoring_case(v, "delta"@)
    ||| same_ignoring_case(v, "parquet"@)
    ||| same_ignoring_case(v, "hudi"@)
}

/// Whether `v` names a file format of Databricks tables, in small letters or capitals.
pub fn is_valid_databricks_file_format(v: &str) -> (r: bool)
    ensures
        r == databricks_file_format(v@),
{
    eq_ignore_ascii_case(v, "delta") || eq_ignore_ascii_case(v, "parquet") || eq_ignore_ascii_case(
        v,
        "hudi",
    )
}

} // verus!
