//! A model's configuration and how its fields are looked up.

use vstd::prelude::*;
use vstd::string::*;

use crate::adapter::{
    configuration_error, reports, AdapterError, AdapterResult, AdapterType, ErrorView,
};
use crate::fields::{
    FIELD_ALIAS, FIELD_BASE_LOCATION_ROOT, FIELD_BASE_LOCATION_SUBPATH, FIELD_CATALOG_NAME,
    FIELD_CHANGE_TRACKING, FIELD_DATA_RETENTION_TIME_IN_DAYS, FIELD_EXTERNAL_VOLUME,
    FIELD_IDENTIFIER, FIELD_LOCATION_ROOT, FIELD_STORAGE_SERIALIZATION_POLICY, FIELD_TRANSIENT,
    FIELD_USE_UNIFORM, MODEL_NONE_SENTINEL,
};
use crate::text::{
    eq_ignore_ascii_case, or_else, parse_u32, same_ignoring_case, same_text, text_of, trimmed,
    u32_value,
};

verus! {

/// One configured field.
pub struct ConfigEntry {
    pub key: String,
    /// The value as text.
    pub text: String,
    /// The value as a flag: what it says, or why it cannot be read as one.
    pub flag: Result<Option<bool>, String>,
}

/// A group of configured fields.
pub struct Section {
    pub entries: Vec<ConfigEntry>,
    /// The nested `adapter_properties`, where the group has them.
    pub adapter_properties: Option<Vec<ConfigEntry>>,
}

/// A group of configured fields that has a name of its own.
pub struct NamedSection {
    pub name: String,
    pub section: Section,
}

/// A model's configuration: its top-level fields, and its named groups, such as the fields that
/// are meant for one adapter only.
pub struct Model {
    pub fields: Section,
    pub sections: Vec<NamedSection>,
}

/// The group that holds a model's fields once more, in the older layout.
pub const SECTION_CONFIG: &'static str = "config";

/// A field's value as contracts speak of it.
pub struct ValueView {
    pub text: Seq<char>,
    pub flag: Result<Option<bool>, Seq<char>>,
}

impl View for ConfigEntry {
    type V = ValueView;

    open spec fn view(&self) -> ValueView {
        ValueView {
            text: self.text@,
            flag: match self.flag {
                Ok(b) => Ok(b),
                Err(message) => Err(message@),
            },
        }
    }
}

/// The first entry with the key `key`.
pub open spec fn find_entry(entries: Seq<ConfigEntry>, key: Seq<char>) -> Option<ConfigEntry>
    decreases entries.len(),
{
    if entries.len() == 0 {
        None
    } else if entries[0].key@ == key {
        Some(entries[0])
    } else {
        find_entry(entries.drop_first(), key)
    }
}

/// The first group with the name `name`.
pub open spec fn find_section(sections: Seq<NamedSection>, name: Seq<char>) -> Option<Section>
    decreases sections.len(),
{
    if sections.len() == 0 {
        None
    } else if sections[0].name@ == name {
        Some(sections[0].section)
    } else {
        find_section(sections.drop_first(), name)
    }
}

/// The name of the group with the fields that are meant for `adapter_type`.
pub open spec fn attr_section(adapter_type: AdapterType) -> Option<Seq<char>> {
    match adapter_type {
        AdapterType::Snowflake => Some("snowflake_attr"@),
        AdapterType::Bigquery => Some("bigquery_attr"@),
        AdapterType::Databricks => Some("databricks_attr"@),
        AdapterType::DuckDB => Some("duckdb_attr"@),
        AdapterType::Other(_) => None,
    }
}

impl Section {
    /// The value of `key` in this group.
    pub open spec fn value(self, key: Seq<char>) -> Option<ValueView> {
        match find_entry(self.entries@, key) {
            Some(entry) => Some(entry@),
            None => None,
        }
    }
}

impl Model {
    /// The value of `key` in the group `name`.
    pub open spec fn section_value(self, name: Option<Seq<char>>, key: Seq<char>) -> Option<ValueView> {
        match name {
            Some(name) => match find_section(self.sections@, name) {
                Some(section) => section.value(key),
                None => None,
            },
            None => None,
        }
    }

    /// Whether the group `name` has `adapter_properties`.
    pub open spec fn section_has_properties(self, name: Option<Seq<char>>) -> bool {
        match name {
            Some(name) => match find_section(self.sections@, name) {
                Some(section) => section.adapter_properties is Some,
                None => false,
            },
            None => false,
        }
    }

    /// The value of `key`: at the top level, else among the adapter's own fields, else in the
    /// older layout.
    pub open spec fn value(self, key: Seq<char>, adapter_type: AdapterType) -> Option<ValueView> {
        or_else(
            self.fields.value(key),
            or_else(
                self.section_value(attr_section(adapter_type), key),
                self.section_value(Some(SECTION_CONFIG@), key),
            ),
        )
    }

    /// The value of `key` as text.
    pub open spec fn text(self, key: Seq<char>, adapter_type: AdapterType) -> Option<Seq<char>> {
        match self.value(key, adapter_type) {
            Some(value) => Some(value.text),
            None => None,
        }
    }

    /// What the model calls its table.
    pub open spec fn table_name(self, adapter_type: AdapterType) -> Option<Seq<char>> {
        or_else(self.text(FIELD_ALIAS@, adapter_type), self.text(FIELD_IDENTIFIER@, adapter_type))
    }

    /// Whether `key` is configured.
    pub open spec fn has(self, key: Seq<char>, adapter_type: AdapterType) -> bool {
        self.value(key, adapter_type) is Some
    }

    /// Whether `adapter_properties` are configured, at the top level, for the adapter or in the
    /// older layout.
    pub open spec fn has_adapter_properties(self, adapter_type: AdapterType) -> bool {
        ||| self.fields.adapter_properties is Some
        ||| self.section_has_properties(attr_section(adapter_type))
        ||| self.section_has_properties(Some(SECTION_CONFIG@))
    }

    /// What `key` says as a flag, where it says something.
    pub open spec fn flag(self, key: Seq<char>, adapter_type: AdapterType) -> Option<bool> {
        match self.value(key, adapter_type) {
            Some(value) => match value.flag {
                Ok(flag) => flag,
                Err(_) => None,
            },
            None => None,
        }
    }

    /// The error where `key` is configured with what cannot be read as a flag.
    pub open spec fn flag_refusal(self, key: Seq<char>, adapter_type: AdapterType) -> Option<
        ErrorView,
    > {
        match self.value(key, adapter_type) {
            Some(value) => match value.flag {
                Ok(_) => None,
                Err(message) => Some(configuration_error(message)),
            },
            None => None,
        }
    }

    /// What `key` says as a `u32`, where it is one.
    pub open spec fn number(self, key: Seq<char>, adapter_type: AdapterType) -> Option<u32> {
        match self.text(key, adapter_type) {
            Some(text) => u32_value(text),
            None => None,
        }
    }

    /// The error where `key` is configured with what is no `u32`.
    pub open spec fn number_refusal(self, key: Seq<char>, adapter_type: AdapterType) -> Option<
        ErrorView,
    > {
        if self.has(key, adapter_type) && self.number(key, adapter_type) is None {
            Some(
                configuration_error(
                    "Model field '"@ + key + "' must be a non-negative integer"@,
                ),
            )
        } else {
            None
        }
    }

    /// The catalog that the model names: its `catalog_name` without white space at the ends,
    /// unless that is the word for no catalog.
    pub open spec fn selected_catalog(self, adapter_type: AdapterType) -> Option<Seq<char>> {
        match self.text(FIELD_CATALOG_NAME@, adapter_type) {
            Some(text) => if same_ignoring_case(trimmed(text), MODEL_NONE_SENTINEL@) {
                None
            } else {
                Some(trimmed(text))
            },
            None => None,
        }
    }
}

/// The first of `keys` that the model configures.
pub open spec fn first_configured(
    model: Model,
    keys: Seq<Seq<char>>,
    adapter_type: AdapterType,
) -> Option<Seq<char>>
    decreases keys.len(),
{
    if keys.len() == 0 {
        None
    } else if model.has(keys[0], adapter_type) {
        Some(keys[0])
    } else {
        first_configured(model, keys.drop_first(), adapter_type)
    }
}

impl Section {
    /// The entry of `key` in this group.
    fn entry(&self, key: &str) -> (r: Option<&ConfigEntry>)
        ensures
            match r {
                Some(entry) => find_entry(self.entries@, key@) == Some(*entry),
                None => find_entry(self.entries@, key@) is None,
            },
    {
        let mut i: usize = 0;
        assert(self.entries@.skip(0) =~= self.entries@);
        while i < self.entries.len()
            invariant
                i <= self.entries.len(),
                find_entry(self.entries@, key@) == find_entry(self.entries@.skip(i as int), key@),
            decreases self.entries.len() - i,
        {
            if same_text(self.entries[i].key.as_str(), key) {
                return Some(&self.entries[i]);
            }
            assert(self.entries@.skip(i as int).drop_first() =~= self.entries@.skip(i + 1));
            i += 1;
        }
        None
    }
}

impl Model {
    fn section(&self, name: &str) -> (r: Option<&Section>)
        ensures
            match r {
                Some(section) => find_section(self.sections@, name@) == Some(*section),
                None => find_section(self.sections@, name@) is None,
            },
    {
        let mut i: usize = 0;
        assert(self.sections@.skip(0) =~= self.sections@);
        while i < self.sections.len()
            invariant
                i <= self.sections.len(),
                find_section(self.sections@, name@) == find_section(
                    self.sections@.skip(i as int),
                    name@,
                ),
            decreases self.sections.len() - i,
        {
            if same_text(self.sections[i].name.as_str(), name) {
                return Some(&self.sections[i].section);
            }
            assert(self.sections@.skip(i as int).drop_first() =~= self.sections@.skip(i + 1));
            i += 1;
        }
        None
    }

    fn attr_section_of(&self, adapter_type: AdapterType) -> (r: Option<&Section>)
        ensures
            match r {
                Some(section) => attr_section(adapter_type) is Some && find_section(
                    self.sections@,
                    attr_section(adapter_type)->0,
                ) == Some(*section),
                None => attr_section(adapter_type) is Some ==> find_section(
                    self.sections@,
                    attr_section(adapter_type)->0,
                ) is None,
            },
    {
        match adapter_type {
            AdapterType::Snowflake => self.section("snowflake_attr"),
            AdapterType::Bigquery => self.section("bigquery_attr"),
            AdapterType::Databricks => self.section("databricks_attr"),
            AdapterType::DuckDB => self.section("duckdb_attr"),
            AdapterType::Other(_) => None,
        }
    }

    /// The entry of `key`: at the top level, else among the adapter's own fields, else in the
    /// older layout.
    fn entry(&self, key: &str, adapter_type: AdapterType) -> (r: Option<&ConfigEntry>)
        ensures
            match r {
                Some(entry) => self.value(key@, adapter_type) == Some(entry@),
                None => self.value(key@, adapter_type) is None,
            },
    {
        if let Some(entry) = self.fields.entry(key) {
            return Some(entry);
        }
        if let Some(section) = self.attr_section_of(adapter_type) {
            if let Some(entry) = section.entry(key) {
                return Some(entry);
            }
        }
        match self.section(SECTION_CONFIG) {
            Some(section) => section.entry(key),
            None => None,
        }
    }

    /// The value of `key` as text.
    pub fn get_model_config_value(&self, key: &str, adapter_type: AdapterType) -> (r: Option<String>)
        ensures
            text_of(r) == self.text(key@, adapter_type),
    {
        match self.entry(key, adapter_type) {
            Some(entry) => Some(entry.text.clone()),
            None => None,
        }
    }

    /// The value of `key` as text, or `catalog_value` where the model does not configure it.
    pub fn text_or(&self, key: &str, adapter_type: AdapterType, catalog_value: &Option<String>) -> (r:
        Option<String>)
        ensures
            text_of(r) == or_else(self.text(key@, adapter_type), text_of(*catalog_value)),
    {
        match self.entry(key, adapter_type) {
            Some(entry) => Some(entry.text.clone()),
            None => match catalog_value {
                Some(value) => Some(value.clone()),
                None => None,
            },
        }
    }

    /// Whether `key` is configured.
    pub fn is_configured(&self, key: &str, adapter_type: AdapterType) -> (r: bool)
        ensures
            r == self.has(key@, adapter_type),
    {
        self.entry(key, adapter_type).is_some()
    }

    /// What the model calls its table.
    pub fn get_table_name(&self, adapter_type: AdapterType) -> (r: Option<String>)
        ensures
            text_of(r) == self.table_name(adapter_type),
    {
        match self.get_model_config_value(FIELD_ALIAS, adapter_type) {
            Some(alias) => Some(alias),
            None => self.get_model_config_value(FIELD_IDENTIFIER, adapter_type),
        }
    }

    /// Whether `adapter_properties` are configured.
    pub fn has_model_adapter_properties(&self, adapter_type: AdapterType) -> (r: bool)
        ensures
            r == self.has_adapter_properties(adapter_type),
    {
        if self.fields.adapter_properties.is_some() {
            return true;
        }
        if let Some(section) = self.attr_section_of(adapter_type) {
            if section.adapter_properties.is_some() {
                return true;
            }
        }
        match self.section(SECTION_CONFIG) {
            Some(section) => section.adapter_properties.is_some(),
            None => false,
        }
    }
}

/// The value of `key` as a flag.
pub fn parse_model_bool(model: &Model, key: &str, adapter_type: AdapterType) -> (r: AdapterResult<
    Option<bool>,
>)
    ensures
        reports(r, model.flag_refusal(key@, adapter_type)),
        r matches Ok(flag) ==> flag == model.flag(key@, adapter_type),
{
    match model.entry(key, adapter_type) {
        Some(entry) => match &entry.flag {
            Ok(flag) => Ok(*flag),
            Err(message) => Err(AdapterError::configuration(message.clone())),
        },
        None => Ok(None),
    }
}

/// The value of `key` as a `u32`.
pub fn parse_model_u32(model: &Model, key: &str, adapter_type: AdapterType) -> (r: AdapterResult<
    Option<u32>,
>)
    ensures
        reports(r, model.number_refusal(key@, adapter_type)),
        r matches Ok(number) ==> number == model.number(key@, adapter_type),
{
    match model.entry(key, adapter_type) {
        Some(entry) => match parse_u32(entry.text.as_str()) {
            Some(number) => Ok(Some(number)),
            None => Err(
                AdapterError::configuration(
                    "Model field '".to_owned().concat(key).concat(
                        "' must be a non-negative integer",
                    ),
                ),
            ),
        },
        None => Ok(None),
    }
}

/// The catalog that the model names.
pub fn model_catalog_name(model: &Model, adapter_type: AdapterType) -> (r: Option<String>)
    ensures
        text_of(r) == model.selected_catalog(adapter_type),
{
    match model.entry(FIELD_CATALOG_NAME, adapter_type) {
        Some(entry) => {
            let name: &str = entry.text.as_str().trim();
            if eq_ignore_ascii_case(name, MODEL_NONE_SENTINEL) {
                None
            } else {
                Some(name.to_owned())
            }
        },
        None => None,
    }
}

/// The texts of a list of keys.
pub open spec fn texts(keys: Seq<&str>) -> Seq<Seq<char>> {
    keys.map_values(|key: &str| key@)
}

/// The first of `keys` that the model configures.
fn first_configured_of<'a>(model: &Model, keys: &Vec<&'a str>, adapter_type: AdapterType) -> (r:
    Option<&'a str>)
    ensures
        match r {
            Some(key) => first_configured(*model, texts(keys@), adapter_type) == Some(key@),
            None => first_configured(*model, texts(keys@), adapter_type) is None,
        },
{
    let mut i: usize = 0;
    let ghost all = texts(keys@);
    assert(all.skip(0) =~= all);
    while i < keys.len()
        invariant
            i <= keys.len(),
            all == texts(keys@),
            first_configured(*model, all, adapter_type) == first_configured(
                *model,
                all.skip(i as int),
                adapter_type,
            ),
        decreases keys.len() - i,
    {
        if model.is_configured(keys[i], adapter_type) {
            return Some(keys[i]);
        }
        assert(all.skip(i as int).drop_first() =~= all.skip(i + 1));
        i += 1;
    }
    None
}

/// The refusal of a transient Iceberg table. Only an explicit `transient: true` is one: no Iceberg
/// relation is transient, so `transient: false`, which a project may set for all its models, asks
/// for nothing else.
pub open spec fn transient_refusal(model: Model) -> Option<ErrorView> {
    or_else(
        model.flag_refusal(FIELD_TRANSIENT@, AdapterType::Snowflake),
        if model.flag(FIELD_TRANSIENT@, AdapterType::Snowflake) == Some(true) {
            Some(
                configuration_error(
                    "transient may not be specified for ICEBERG catalogs. Snowflake built-in catalog DDL does not support transient ICEBERG tables."@,
                ),
            )
        } else {
            None
        },
    )
}

/// Refuses a transient Iceberg table.
pub fn reject_transient(model: &Model) -> (r: AdapterResult<()>)
    ensures
        reports(r, transient_refusal(*model)),
{
    match parse_model_bool(model, FIELD_TRANSIENT, AdapterType::Snowflake) {
        Ok(Some(true)) => Err(
            AdapterError::configuration(
                "transient may not be specified for ICEBERG catalogs. Snowflake built-in catalog DDL does not support transient ICEBERG tables.".to_owned(),
            ),
        ),
        Ok(_) => Ok(()),
        Err(e) => Err(e),
    }
}

/// The fields that a relation in a linked Snowflake catalog cannot have.
pub open spec fn linked_unsupported_fields() -> Seq<Seq<char>> {
    seq![
        FIELD_EXTERNAL_VOLUME@,
        FIELD_BASE_LOCATION_ROOT@,
        FIELD_BASE_LOCATION_SUBPATH@,
        FIELD_CHANGE_TRACKING@,
        FIELD_DATA_RETENTION_TIME_IN_DAYS@,
        FIELD_STORAGE_SERIALIZATION_POLICY@,
    ]
}

/// The refusal of a model whose fields a linked Snowflake catalog does not support.
pub open spec fn linked_fields_refusal(model: Model, catalog_kind: Seq<char>) -> Option<ErrorView> {
    or_else(
        transient_refusal(model),
        match first_configured(model, linked_unsupported_fields(), AdapterType::Snowflake) {
            Some(field) => Some(
                configuration_error(
                    "Snowflake v2 "@ + catalog_kind + " does not support model field '"@ + field
                        + "' yet."@,
                ),
            ),
            None => None,
        },
    )
}

/// Refuses a model whose fields a linked Snowflake catalog does not support.
pub fn reject_unsupported_snowflake_linked_v2_model_fields(model: &Model, catalog_kind: &str) -> (r:
    AdapterResult<()>)
    ensures
        reports(r, linked_fields_refusal(*model, catalog_kind@)),
{
    if let Err(e) = reject_transient(model) {
        return Err(e);
    }
    let fields: Vec<&str> = vec![
        FIELD_EXTERNAL_VOLUME,
        FIELD_BASE_LOCATION_ROOT,
        FIELD_BASE_LOCATION_SUBPATH,
        FIELD_CHANGE_TRACKING,
        FIELD_DATA_RETENTION_TIME_IN_DAYS,
        FIELD_STORAGE_SERIALIZATION_POLICY,
    ];
    assert(texts(fields@) =~= linked_unsupported_fields());
    match first_configured_of(model, &fields, AdapterType::Snowflake) {
        Some(field) => Err(
            AdapterError::configuration(
                "Snowflake v2 ".to_owned().concat(catalog_kind).concat(
                    " does not support model field '",
                ).concat(field).concat("' yet."),
            ),
        ),
        None => Ok(()),
    }
}

/// The fields that a relation in a Hive metastore cannot have.
pub open spec fn hive_unsupported_fields() -> Seq<Seq<char>> {
    seq![FIELD_LOCATION_ROOT@, FIELD_USE_UNIFORM@]
}

/// The refusal of a model whose fields a Hive metastore does not support.
pub open spec fn hive_fields_refusal(model: Model) -> Option<ErrorView> {
    match first_configured(model, hive_unsupported_fields(), AdapterType::Databricks) {
        Some(field) => Some(
            configuration_error(
                "Databricks v2 hive_metastore does not support model field '"@ + field + "'."@,
            ),
        ),
        None => None,
    }
}

/// Refuses a model whose fields a Hive metastore does not support.
pub fn reject_unsupported_databricks_hive_v2_model_fields(model: &Model) -> (r: AdapterResult<()>)
    ensures
        reports(r, hive_fields_refusal(*model)),
{
    let fields: Vec<&str> = vec![FIELD_LOCATION_ROOT, FIELD_USE_UNIFORM];
    assert(texts(fields@) =~= hive_unsupported_fields());
    match first_configured_of(model, &fields, AdapterType::Databricks) {
        Some(field) => Err(
            AdapterError::configuration(
                "Databricks v2 hive_metastore does not support model field '".to_owned().concat(
                    field,
                ).concat("'."),
            ),
        ),
        None => Ok(()),
    }
}

} // verus!
