//! What holds of every model and of every catalog: how their values are found and read.

use dbt_yaml::Mapping;
use vstd::prelude::*;

use crate::adapter::{
    configuration_error, internal_error, reports, AdapterError, AdapterErrorKind, AdapterResult,
    AdapterType, ErrorView,
};
use crate::bigquery::{bigquery_settings, BigquerySettings, BigqueryView};
use crate::catalogs::{
    databricks_file_format, find_block, find_catalog, missing_block, unknown_catalog, view_refusal,
    CatalogSpecV2View, DbtCatalogsV2View, PlatformBlock, UniformMode, V2CatalogType, V2FileFormat,
};
use crate::databricks::{databricks_settings, DatabricksSettings, DatabricksView};
use crate::duckdb::{duckdb_settings, DuckdbSettings, DuckdbView};
use crate::laws::found_catalog_is_the_first;
use crate::model::{
    attr_section, find_entry, find_section, first_configured, hive_fields_refusal,
    hive_unsupported_fields, linked_fields_refusal, linked_unsupported_fields, texts,
    transient_refusal, ConfigEntry, Model, NamedSection,
};
use crate::snowflake::{snowflake_settings, SnowflakeSettings, SnowflakeView};
use crate::text::{same_ignoring_case, text_of, trimmed, u32_value};
use crate::yaml::{mapping_entries, yaml_bool, yaml_str, yaml_u32, ScalarView, YamlScalar};

verus! {

/// Whether the entry at `i` is the first with the key `key`.
pub open spec fn first_entry(entries: Seq<ConfigEntry>, key: Seq<char>, i: int) -> bool {
    &&& 0 <= i < entries.len()
    &&& entries[i].key@ == key
    &&& forall|j: int| 0 <= j < i ==> (#[trigger] entries[j]).key@ != key
}

/// Whether no entry has the key `key`.
pub open spec fn no_entry(entries: Seq<ConfigEntry>, key: Seq<char>) -> bool {
    forall|i: int| 0 <= i < entries.len() ==> (#[trigger] entries[i]).key@ != key
}

/// Whether the group at `i` is the first with the name `name`.
pub open spec fn first_section(sections: Seq<NamedSection>, name: Seq<char>, i: int) -> bool {
    &&& 0 <= i < sections.len()
    &&& sections[i].name@ == name
    &&& forall|j: int| 0 <= j < i ==> (#[trigger] sections[j]).name@ != name
}

/// Whether no group has the name `name`.
pub open spec fn no_section(sections: Seq<NamedSection>, name: Seq<char>) -> bool {
    forall|i: int| 0 <= i < sections.len() ==> (#[trigger] sections[i]).name@ != name
}

/// Whether the first group with the name `name`, if there is one, has no entry of `key`.
pub open spec fn silent(sections: Seq<NamedSection>, name: Seq<char>, key: Seq<char>) -> bool {
    forall|i: int|
        first_section(sections, name, i) ==> no_entry(
            (#[trigger] sections[i]).section.entries@,
            key,
        )
}

/// Whether `name` is the name of the group with the adapter's own fields.
pub open spec fn own_group(adapter_type: AdapterType, name: Seq<char>) -> bool {
    ||| adapter_type is Snowflake && name == "snowflake_attr"@
    ||| adapter_type is Bigquery && name == "bigquery_attr"@
    ||| adapter_type is Databricks && name == "databricks_attr"@
    ||| adapter_type is DuckDB && name == "duckdb_attr"@
}

proof fn lemma_find_entry(entries: Seq<ConfigEntry>, key: Seq<char>)
    ensures
        find_entry(entries, key) is None <==> no_entry(entries, key),
        forall|i: int|
            first_entry(entries, key, i) ==> find_entry(entries, key) == Some(#[trigger] entries[i]),
    decreases entries.len(),
{
    if entries.len() > 0 {
        let rest = entries.drop_first();
        lemma_find_entry(rest, key);
        if entries[0].key@ != key {
            assert forall|i: int| first_entry(entries, key, i) implies find_entry(entries, key)
                == Some(#[trigger] entries[i]) by {
                assert(rest[i - 1] == entries[i]);
                assert forall|j: int| 0 <= j < i - 1 implies (#[trigger] rest[j]).key@ != key by {
                    assert(rest[j] == entries[j + 1]);
                }
                assert(first_entry(rest, key, i - 1));
            }
            if no_entry(rest, key) {
                assert forall|i: int| 0 <= i < entries.len() implies (#[trigger] entries[i]).key@
                    != key by {
                    if i > 0 {
                        assert(entries[i] == rest[i - 1]);
                    }
                }
            }
            if no_entry(entries, key) {
                assert forall|i: int| 0 <= i < rest.len() implies (#[trigger] rest[i]).key@ != key by {
                    assert(rest[i] == entries[i + 1]);
                }
            }
        }
    }
}

proof fn lemma_section_is_found(sections: Seq<NamedSection>, name: Seq<char>)
    ensures
        find_section(sections, name) is None <==> no_section(sections, name),
        find_section(sections, name) matches Some(section) ==> exists|i: int|
            #[trigger] first_section(sections, name, i) && sections[i].section == section,
    decreases sections.len(),
{
    if sections.len() > 0 {
        let rest = sections.drop_first();
        lemma_section_is_found(rest, name);
        if sections[0].name@ == name {
            assert(first_section(sections, name, 0));
        } else if let Some(section) = find_section(rest, name) {
            let i = choose|i: int|
                #[trigger] first_section(rest, name, i) && rest[i].section == section;
            assert(sections[i + 1] == rest[i]);
            assert forall|j: int| 0 <= j < i + 1 implies (#[trigger] sections[j]).name@ != name by {
                if j > 0 {
                    assert(sections[j] == rest[j - 1]);
                }
            }
            assert(first_section(sections, name, i + 1));
        } else {
            assert forall|i: int| 0 <= i < sections.len() implies (#[trigger] sections[i]).name@
                != name by {
                if i > 0 {
                    assert(sections[i] == rest[i - 1]);
                }
            }
        }
    }
}

proof fn lemma_find_section(sections: Seq<NamedSection>, name: Seq<char>)
    ensures
        find_section(sections, name) is None <==> no_section(sections, name),
        forall|i: int|
            #[trigger] first_section(sections, name, i) ==> find_section(sections, name) == Some(
                sections[i].section,
            ),
        find_section(sections, name) is Some ==> exists|i: int|
            #[trigger] first_section(sections, name, i),
{
    lemma_section_is_found(sections, name);
    if let Some(section) = find_section(sections, name) {
        let k = choose|k: int|
            #[trigger] first_section(sections, name, k) && sections[k].section == section;
        assert(sections[k].name@ == name);
        assert forall|i: int| #[trigger] first_section(sections, name, i) implies find_section(
            sections,
            name,
        ) == Some(sections[i].section) by {
            if k < i {
                assert(sections[k].name@ != name);
            } else if i < k {
                assert(sections[i].name@ != name);
            }
        }
    }
}

/// A field has the value of the first top-level entry with its key, whatever else the model says.
pub proof fn top_level_fields_come_first(
    model: Model,
    key: Seq<char>,
    adapter_type: AdapterType,
    i: int,
)
    requires
        first_entry(model.fields.entries@, key, i),
    ensures
        model.value(key, adapter_type) == Some(model.fields.entries@[i]@),
{
    lemma_find_entry(model.fields.entries@, key);
}

/// A field that is not at the top level has the value of the first entry with its key among the
/// adapter's own fields.
pub proof fn the_adapters_own_fields_come_second(
    model: Model,
    key: Seq<char>,
    adapter_type: AdapterType,
    own: Seq<char>,
    group: int,
    i: int,
)
    requires
        no_entry(model.fields.entries@, key),
        own_group(adapter_type, own),
        first_section(model.sections@, own, group),
        first_entry(model.sections@[group].section.entries@, key, i),
    ensures
        model.value(key, adapter_type) == Some(model.sections@[group].section.entries@[i]@),
{
    lemma_find_entry(model.fields.entries@, key);
    lemma_find_section(model.sections@, own);
    lemma_find_entry(model.sections@[group].section.entries@, key);
}

/// A field that is neither at the top level nor among the adapter's own fields has the value of the
/// first entry with its key in the older layout.
pub proof fn the_older_layout_comes_last(
    model: Model,
    key: Seq<char>,
    adapter_type: AdapterType,
    group: int,
    i: int,
)
    requires
        no_entry(model.fields.entries@, key),
        forall|own: Seq<char>|
            own_group(adapter_type, own) ==> #[trigger] silent(model.sections@, own, key),
        first_section(model.sections@, "config"@, group),
        first_entry(model.sections@[group].section.entries@, key, i),
    ensures
        model.value(key, adapter_type) == Some(model.sections@[group].section.entries@[i]@),
{
    lemma_find_entry(model.fields.entries@, key);
    lemma_own_group_is_silent(model, key, adapter_type);
    lemma_find_section(model.sections@, "config"@);
    lemma_find_entry(model.sections@[group].section.entries@, key);
}

proof fn lemma_own_group_is_silent(model: Model, key: Seq<char>, adapter_type: AdapterType)
    requires
        forall|own: Seq<char>|
            own_group(adapter_type, own) ==> #[trigger] silent(model.sections@, own, key),
    ensures
        model.section_value(attr_section(adapter_type), key) is None,
{
    if let Some(own) = attr_section(adapter_type) {
        assert(silent(model.sections@, own, key));
        lemma_find_section(model.sections@, own);
        if let Some(section) = find_section(model.sections@, own) {
            let group = choose|i: int| first_section(model.sections@, own, i);
            assert(section == model.sections@[group].section);
            lemma_find_entry(section.entries@, key);
        }
    }
}

/// A field that stands nowhere has no value: fields of another adapter or of another group count
/// for nothing.
pub proof fn what_stands_nowhere_has_no_value(
    model: Model,
    key: Seq<char>,
    adapter_type: AdapterType,
)
    requires
        no_entry(model.fields.entries@, key),
        forall|own: Seq<char>|
            own_group(adapter_type, own) ==> #[trigger] silent(model.sections@, own, key),
        silent(model.sections@, "config"@, key),
    ensures
        model.value(key, adapter_type) is None,
{
    lemma_find_entry(model.fields.entries@, key);
    lemma_own_group_is_silent(model, key, adapter_type);
    lemma_find_section(model.sections@, "config"@);
    if let Some(section) = find_section(model.sections@, "config"@) {
        let group = choose|i: int| first_section(model.sections@, "config"@, i);
        assert(section == model.sections@[group].section);
        lemma_find_entry(section.entries@, key);
    }
}

/// The value of an entry is its text, and the flag or the complaint that it was read as.
pub proof fn an_entry_says_what_it_holds(entry: ConfigEntry)
    ensures
        entry@.text == entry.text@,
        entry.flag matches Ok(flag) ==> entry@.flag == Ok::<Option<bool>, Seq<char>>(flag),
        entry.flag matches Err(message) ==> entry@.flag == Err::<Option<bool>, Seq<char>>(message@),
{
}

/// A field is there where it has a value. Its text is the value's text; its flag is the value's, or
/// an error of configuration with the value's complaint; its number is what the text reads as, or
/// an error of configuration where the text reads as none.
pub proof fn fields_are_read_from_their_value(
    model: Model,
    key: Seq<char>,
    adapter_type: AdapterType,
)
    ensures
        match model.value(key, adapter_type) {
            None => {
                &&& !model.has(key, adapter_type)
                &&& model.text(key, adapter_type) is None
                &&& model.flag(key, adapter_type) is None
                &&& model.flag_refusal(key, adapter_type) is None
                &&& model.number(key, adapter_type) is None
                &&& model.number_refusal(key, adapter_type) is None
            },
            Some(value) => {
                &&& model.has(key, adapter_type)
                &&& model.text(key, adapter_type) == Some(value.text)
                &&& match value.flag {
                    Ok(flag) => model.flag(key, adapter_type) == flag && model.flag_refusal(
                        key,
                        adapter_type,
                    ) is None,
                    Err(message) => model.flag(key, adapter_type) is None && is_configuration_error(
                        model.flag_refusal(key, adapter_type),
                        message,
                    ),
                }
                &&& match u32_value(value.text) {
                    Some(n) => model.number(key, adapter_type) == Some(n) && model.number_refusal(
                        key,
                        adapter_type,
                    ) is None,
                    None => model.number(key, adapter_type) is None && is_configuration_error(
                        model.number_refusal(key, adapter_type),
                        "Model field '"@ + key + "' must be a non-negative integer"@,
                    ),
                }
            },
        },
{
}

/// Whether `refusal` is an error of configuration with the message `message`.
pub open spec fn is_configuration_error(refusal: Option<ErrorView>, message: Seq<char>) -> bool {
    &&& refusal is Some
    &&& refusal->0.kind == AdapterErrorKind::Configuration
    &&& refusal->0.message == message
}

/// An error shows its kind and its message, and a result reports an error exactly where there is
/// one to report.
pub proof fn errors_are_reported_as_they_are(
    e: AdapterError,
    done: AdapterResult<()>,
    refusal: Option<ErrorView>,
    message: Seq<char>,
)
    ensures
        e@.kind == e.kind,
        e@.message == e.message@,
        done is Ok ==> (reports(done, refusal) <==> refusal is None),
        done matches Err(e) ==> (reports(done, refusal) <==> refusal is Some && refusal->0.kind
            == e.kind && refusal->0.message == e.message@),
        configuration_error(message).kind == AdapterErrorKind::Configuration,
        configuration_error(message).message == message,
        internal_error(message).kind == AdapterErrorKind::Internal,
        internal_error(message).message == message,
{
}

/// A table is called by its alias, and by its identifier where it has no alias.
pub proof fn the_alias_names_the_table(model: Model, adapter_type: AdapterType)
    ensures
        model.text("alias"@, adapter_type) is Some ==> model.table_name(adapter_type) == model.text(
            "alias"@,
            adapter_type,
        ),
        model.text("alias"@, adapter_type) is None ==> model.table_name(adapter_type) == model.text(
            "identifier"@,
            adapter_type,
        ),
{
}

/// A model has `adapter_properties` where they stand at its top level, among the adapter's own
/// fields or in the older layout.
pub proof fn adapter_properties_stand_in_three_places(model: Model, adapter_type: AdapterType)
    ensures
        model.has_adapter_properties(adapter_type) <==> {
            ||| model.fields.adapter_properties is Some
            ||| exists|name: Seq<char>, i: int|
                (own_group(adapter_type, name) || name == "config"@) && #[trigger] first_section(
                    model.sections@,
                    name,
                    i,
                ) && model.sections@[i].section.adapter_properties is Some
        },
{
    lemma_find_section(model.sections@, "config"@);
    if let Some(own) = attr_section(adapter_type) {
        assert(own_group(adapter_type, own));
        lemma_find_section(model.sections@, own);
        if find_section(model.sections@, own) is Some {
            let i = choose|i: int| first_section(model.sections@, own, i);
            assert(find_section(model.sections@, own) == Some(model.sections@[i].section));
        }
    }
    if find_section(model.sections@, "config"@) is Some {
        let i = choose|i: int| first_section(model.sections@, "config"@, i);
        assert(find_section(model.sections@, "config"@) == Some(model.sections@[i].section));
    }
    assert forall|name: Seq<char>, i: int|
        (own_group(adapter_type, name) || name == "config"@) && #[trigger] first_section(
            model.sections@,
            name,
            i,
        ) && model.sections@[i].section.adapter_properties is Some implies model.has_adapter_properties(
        adapter_type,
    ) by {
        lemma_find_section(model.sections@, name);
        assert(find_section(model.sections@, name) == Some(model.sections@[i].section));
    }
}

/// A model selects the catalog that its `catalog_name` gives when the white space at the ends is
/// taken off, unless that is the word `none` in whatever case.
pub proof fn the_catalog_name_selects(model: Model, adapter_type: AdapterType, name: Seq<char>)
    ensures
        model.selected_catalog(adapter_type) == Some(name) <==> {
            &&& model.text("catalog_name"@, adapter_type) is Some
            &&& name == trimmed(model.text("catalog_name"@, adapter_type)->0)
            &&& !same_ignoring_case(name, "none"@)
        },
{
}

proof fn lemma_first_configured(
    model: Model,
    keys: Seq<Seq<char>>,
    adapter_type: AdapterType,
    i: int,
)
    requires
        0 <= i < keys.len(),
        model.has(keys[i], adapter_type),
        forall|j: int| 0 <= j < i ==> !model.has(#[trigger] keys[j], adapter_type),
    ensures
        first_configured(model, keys, adapter_type) == Some(keys[i]),
    decreases keys.len(),
{
    if i > 0 {
        assert(!model.has(keys[0], adapter_type));
        assert forall|j: int| 0 <= j < i - 1 implies !model.has(
            #[trigger] keys.drop_first()[j],
            adapter_type,
        ) by {
            assert(keys.drop_first()[j] == keys[j + 1]);
        }
        lemma_first_configured(model, keys.drop_first(), adapter_type, i - 1);
    }
}

proof fn lemma_none_configured(model: Model, keys: Seq<Seq<char>>, adapter_type: AdapterType)
    requires
        forall|j: int| 0 <= j < keys.len() ==> !model.has(#[trigger] keys[j], adapter_type),
    ensures
        first_configured(model, keys, adapter_type) is None,
    decreases keys.len(),
{
    if keys.len() > 0 {
        assert(!model.has(keys[0], adapter_type));
        assert forall|j: int| 0 <= j < keys.len() - 1 implies !model.has(
            #[trigger] keys.drop_first()[j],
            adapter_type,
        ) by {
            assert(keys.drop_first()[j] == keys[j + 1]);
        }
        lemma_none_configured(model, keys.drop_first(), adapter_type);
    }
}

/// Of several keys the first that the model configures is found, and none only where it configures
/// none of them. The texts of keys stand in the order of the keys.
pub proof fn the_first_configured_key_is_found(
    model: Model,
    keys: Seq<Seq<char>>,
    adapter_type: AdapterType,
    words: Seq<&str>,
)
    ensures
        forall|i: int|
            0 <= i < keys.len() && model.has(#[trigger] keys[i], adapter_type) && (forall|j: int|
                0 <= j < i ==> !model.has(#[trigger] keys[j], adapter_type)) ==> first_configured(
                model,
                keys,
                adapter_type,
            ) == Some(keys[i]),
        (forall|j: int| 0 <= j < keys.len() ==> !model.has(#[trigger] keys[j], adapter_type))
            ==> first_configured(model, keys, adapter_type) is None,
        texts(words).len() == words.len(),
        forall|i: int| 0 <= i < words.len() ==> #[trigger] texts(words)[i] == words[i]@,
{
    assert forall|i: int|
        0 <= i < keys.len() && model.has(#[trigger] keys[i], adapter_type) && (forall|j: int|
            0 <= j < i ==> !model.has(#[trigger] keys[j], adapter_type)) implies first_configured(
        model,
        keys,
        adapter_type,
    ) == Some(keys[i]) by {
        lemma_first_configured(model, keys, adapter_type, i);
    }
    if forall|j: int| 0 <= j < keys.len() ==> !model.has(#[trigger] keys[j], adapter_type) {
        lemma_none_configured(model, keys, adapter_type);
    }
}

/// The word `transient` conflicts with an Iceberg table only where it says `true`, or says what
/// cannot be read.
pub proof fn only_transient_true_conflicts(model: Model)
    ensures
        ({
            let adapter = AdapterType::Snowflake;
            let refusal = transient_refusal(model);
            match model.flag_refusal("transient"@, adapter) {
                Some(e) => refusal == Some(e),
                None => if model.flag("transient"@, adapter) == Some(true) {
                    is_configuration_error(
                        refusal,
                        "transient may not be specified for ICEBERG catalogs. Snowflake built-in catalog DDL does not support transient ICEBERG tables."@,
                    )
                } else {
                    refusal is None
                },
            }
        }),
{
}

/// A linked Snowflake catalog refuses a model that is transient, and else the first of six fields
/// that the model configures, by its name; it refuses no other field.
pub proof fn linked_catalogs_refuse_six_fields(model: Model, catalog_kind: Seq<char>, i: int)
    ensures
        ({
            let adapter = AdapterType::Snowflake;
            let fields = seq![
                "external_volume"@,
                "base_location_root"@,
                "base_location_subpath"@,
                "change_tracking"@,
                "data_retention_time_in_days"@,
                "storage_serialization_policy"@,
            ];
            let refusal = linked_fields_refusal(model, catalog_kind);
            &&& linked_unsupported_fields() == fields
            &&& transient_refusal(model) is Some ==> refusal == transient_refusal(model)
            &&& transient_refusal(model) is None && 0 <= i < 6 && model.has(fields[i], adapter) && (
            forall|j: int| 0 <= j < i ==> !model.has(#[trigger] fields[j], adapter))
                ==> is_configuration_error(
                refusal,
                "Snowflake v2 "@ + catalog_kind + " does not support model field '"@ + fields[i]
                    + "' yet."@,
            )
            &&& transient_refusal(model) is None && (forall|j: int|
                0 <= j < 6 ==> !model.has(#[trigger] fields[j], adapter)) ==> refusal is None
        }),
{
    let adapter = AdapterType::Snowflake;
    the_first_configured_key_is_found(model, linked_unsupported_fields(), adapter, Seq::empty());
    let fields = linked_unsupported_fields();
    if 0 <= i < 6 && model.has(fields[i], adapter) && (forall|j: int|
        0 <= j < i ==> !model.has(#[trigger] fields[j], adapter)) {
        lemma_first_configured(model, fields, adapter, i);
    }
    if forall|j: int| 0 <= j < 6 ==> !model.has(#[trigger] fields[j], adapter) {
        lemma_none_configured(model, fields, adapter);
    }
}

/// A Hive metastore refuses a location root, and else UniForm, in a model, and no other field.
pub proof fn hive_refuses_two_fields(model: Model)
    ensures
        ({
            let adapter = AdapterType::Databricks;
            let refusal = hive_fields_refusal(model);
            &&& hive_unsupported_fields() == seq!["location_root"@, "use_uniform"@]
            &&& model.has("location_root"@, adapter) ==> is_configuration_error(
                refusal,
                "Databricks v2 hive_metastore does not support model field '"@ + "location_root"@
                    + "'."@,
            )
            &&& !model.has("location_root"@, adapter) && model.has("use_uniform"@, adapter)
                ==> is_configuration_error(
                refusal,
                "Databricks v2 hive_metastore does not support model field '"@ + "use_uniform"@
                    + "'."@,
            )
            &&& !model.has("location_root"@, adapter) && !model.has("use_uniform"@, adapter)
                ==> refusal is None
        }),
{
    let adapter = AdapterType::Databricks;
    let fields = hive_unsupported_fields();
    if model.has("location_root"@, adapter) {
        lemma_first_configured(model, fields, adapter, 0);
    } else if model.has("use_uniform"@, adapter) {
        lemma_first_configured(model, fields, adapter, 1);
    } else {
        lemma_none_configured(model, fields, adapter);
    }
}

/// Whether the catalog at `i` is the first with the name `name`.
pub open spec fn first_catalog(catalogs: Seq<CatalogSpecV2View>, name: Seq<char>, i: int) -> bool {
    &&& 0 <= i < catalogs.len()
    &&& catalogs[i].name@ == name
    &&& forall|j: int| 0 <= j < i ==> (#[trigger] catalogs[j]).name@ != name
}

/// Whether the block at `i` is the first for `platform`.
pub open spec fn first_block(config: Seq<PlatformBlock>, platform: Seq<char>, i: int) -> bool {
    &&& 0 <= i < config.len()
    &&& config[i].platform@ == platform
    &&& forall|j: int| 0 <= j < i ==> (#[trigger] config[j]).platform@ != platform
}

/// Whether there is no block for `platform`.
pub open spec fn no_block(config: Seq<PlatformBlock>, platform: Seq<char>) -> bool {
    forall|i: int| 0 <= i < config.len() ==> (#[trigger] config[i]).platform@ != platform
}

/// The catalog of a name is the first that has it, wherever it stands among the catalogs.
pub proof fn the_first_catalog_of_a_name_is_found(
    catalogs: Seq<CatalogSpecV2View>,
    name: Seq<char>,
    i: int,
)
    requires
        first_catalog(catalogs, name, i),
    ensures
        find_catalog(catalogs, name) == Some(catalogs[i]),
{
    found_catalog_is_the_first(catalogs, name);
    let found = find_catalog(catalogs, name);
    assert(found is Some);
    let k = choose|k: int|
        0 <= k < catalogs.len() && #[trigger] catalogs[k] == found->0 && found->0.name@ == name
            && forall|j: int| 0 <= j < k ==> (#[trigger] catalogs[j]).name@ != name;
    assert(k == i) by {
        if k < i {
            assert(catalogs[k].name@ != name);
        } else if i < k {
            assert(catalogs[i].name@ != name);
        }
    }
}

proof fn lemma_find_block(config: Seq<PlatformBlock>, platform: Seq<char>)
    ensures
        find_block(config, platform) is None <==> no_block(config, platform),
        find_block(config, platform) matches Some(block) ==> exists|i: int|
            #[trigger] first_block(config, platform, i) && config[i].block == block,
    decreases config.len(),
{
    if config.len() > 0 {
        let rest = config.drop_first();
        lemma_find_block(rest, platform);
        if config[0].platform@ == platform {
            assert(first_block(config, platform, 0));
        } else if let Some(block) = find_block(rest, platform) {
            let i = choose|i: int|
                #[trigger] first_block(rest, platform, i) && rest[i].block == block;
            assert(config[i + 1] == rest[i]);
            assert forall|j: int| 0 <= j < i + 1 implies (#[trigger] config[j]).platform@ != platform by {
                if j > 0 {
                    assert(config[j] == rest[j - 1]);
                }
            }
            assert(first_block(config, platform, i + 1));
        } else {
            assert forall|i: int| 0 <= i < config.len() implies (#[trigger] config[i]).platform@
                != platform by {
                if i > 0 {
                    assert(config[i] == rest[i - 1]);
                }
            }
        }
    }
}

/// What a catalog configures for a platform is the first block for it, wherever it stands among the
/// blocks; there is none only where no block is for the platform.
pub proof fn found_block_is_the_first(catalog: CatalogSpecV2View, platform: Seq<char>)
    ensures
        match catalog.block(platform) {
            Some(block) => exists|i: int|
                0 <= i < catalog.config@.len() && (#[trigger] catalog.config@[i]).platform@ == platform
                    && catalog.config@[i].block == block && forall|j: int|
                    0 <= j < i ==> (#[trigger] catalog.config@[j]).platform@ != platform,
            None => forall|i: int|
                0 <= i < catalog.config@.len() ==> (#[trigger] catalog.config@[i]).platform@
                    != platform,
        },
        forall|i: int|
            #[trigger] first_block(catalog.config@, platform, i) ==> catalog.block(platform) == Some(
                catalog.config@[i].block,
            ),
        no_block(catalog.config@, platform) <==> catalog.block(platform) is None,
{
    let config = catalog.config@;
    lemma_find_block(config, platform);
    if let Some(block) = catalog.block(platform) {
        let k = choose|k: int| #[trigger] first_block(config, platform, k) && config[k].block == block;
        assert(config[k].platform@ == platform);
        assert forall|i: int| #[trigger] first_block(config, platform, i) implies catalog.block(platform)
            == Some(config[i].block) by {
            if k < i {
                assert(config[k].platform@ != platform);
            } else if i < k {
                assert(config[i].platform@ != platform);
            }
        }
    }
}

/// What is said of a `catalogs.yml` that cannot be read, of a catalog that is not defined and of a
/// block that is missing is an error of configuration that names them.
pub proof fn missing_catalogs_and_blocks_are_named(
    catalogs: Result<DbtCatalogsV2View, String>,
    name: Seq<char>,
    platform: Seq<char>,
)
    ensures
        catalogs is Ok ==> view_refusal(catalogs) is None,
        catalogs matches Err(message) ==> is_configuration_error(view_refusal(catalogs), message@),
        is_configuration_error(
            Some(unknown_catalog(name)),
            "Catalog '"@ + name + "' not found in catalogs.yml"@,
        ),
        is_configuration_error(
            Some(missing_block(name, platform)),
            "Catalog '"@ + name + "' is missing config."@ + platform,
        ),
{
}

/// Each kind of catalog, each file format of Databricks and each mode of UniForm has its word.
pub proof fn kinds_and_formats_have_their_words(word: Seq<char>)
    ensures
        V2CatalogType::Unity.word() == "unity"@,
        V2CatalogType::HiveMetastore.word() == "hive_metastore"@,
        V2CatalogType::Horizon.word() == "horizon"@,
        V2CatalogType::Glue.word() == "glue"@,
        V2CatalogType::IcebergRest.word() == "iceberg_rest"@,
        V2CatalogType::BiglakeMetastore.word() == "biglake_metastore"@,
        V2CatalogType::DuckLake.word() == "ducklake"@,
        V2CatalogType::LocalFilesystem.word() == "local_filesystem"@,
        V2FileFormat::named(word) == Some(V2FileFormat::Delta) <==> word == "delta"@,
        V2FileFormat::named(word) == Some(V2FileFormat::Parquet) <==> word == "parquet"@,
        V2FileFormat::named(word) == Some(V2FileFormat::Hudi) <==> word == "hudi"@,
        V2FileFormat::unknown(word) == "file_format '"@ + word
            + "' is not one of (delta|parquet|hudi)"@,
        databricks_file_format(word) <==> same_ignoring_case(word, "delta"@) || same_ignoring_case(
            word,
            "parquet"@,
        ) || same_ignoring_case(word, "hudi"@),
        UniformMode::of(true) == UniformMode::Enabled,
        UniformMode::of(false) == UniformMode::Disabled,
{
    reveal_strlit("delta");
    reveal_strlit("parquet");
    reveal_strlit("hudi");
    assert("delta"@.len() == 5 && "parquet"@.len() == 7 && "hudi"@.len() == 4);
}

/// Whether `text` is what `block` holds under `key` when that is a text, without the white space at
/// its ends.
pub open spec fn text_stands(block: Mapping, key: Seq<char>, text: Option<Seq<char>>) -> bool {
    let held = mapping_entries(block);
    match text {
        Some(text) => held.contains_key(key) && held[key].text is Some && text == trimmed(
            held[key].text->0,
        ),
        None => held.contains_key(key) ==> held[key].text is None,
    }
}

/// Whether `flag` is what `block` holds under `key` when that is a flag.
pub open spec fn flag_stands(block: Mapping, key: Seq<char>, flag: Option<bool>) -> bool {
    let held = mapping_entries(block);
    match flag {
        Some(flag) => held.contains_key(key) && held[key].flag == Some(flag),
        None => held.contains_key(key) ==> held[key].flag is None,
    }
}

/// Whether `n` is the integer that a value is, by its signed reading or else by its unsigned one.
pub open spec fn is_integer(value: ScalarView, n: int) -> bool {
    ||| value.signed matches Some(i) && i == n
    ||| (value.signed matches Some(i) ==> !(0 <= i <= 4294967295)) && (value.unsigned matches Some(u)
        && u == n)
}

/// Whether `number` is what `block` holds under `key` when that is an integer of thirty-two bits
/// without a sign.
pub open spec fn number_stands(block: Mapping, key: Seq<char>, number: Option<u32>) -> bool {
    let held = mapping_entries(block);
    match number {
        Some(n) => held.contains_key(key) && is_integer(held[key], n as int),
        None => held.contains_key(key) ==> forall|n: int|
            0 <= n <= 4294967295 ==> !(#[trigger] is_integer(held[key], n)),
    }
}

/// A text, a flag or a number of a block is what the block holds under the key, whatever it holds
/// under other keys, and nothing else is.
pub proof fn readings_are_what_the_block_holds(
    block: Mapping,
    key: Seq<char>,
    text: Option<Seq<char>>,
    flag: Option<bool>,
    number: Option<u32>,
)
    ensures
        text_stands(block, key, text) <==> yaml_str(block, key) == text,
        flag_stands(block, key, flag) <==> yaml_bool(block, key) == flag,
        number_stands(block, key, number) <==> yaml_u32(block, key) == number,
{
    if number is None && number_stands(block, key, number) && mapping_entries(block).contains_key(
        key,
    ) {
        let value = mapping_entries(block)[key];
        if let Some(i) = value.signed {
            assert(!(0 <= i <= 4294967295)) by {
                if 0 <= i <= 4294967295 {
                    assert(is_integer(value, i as int));
                }
            }
        }
        if let Some(u) = value.unsigned {
            if u <= 4294967295 {
                assert(is_integer(value, u as int));
            }
        }
    }
}

/// Whether `given` is what stands in `block` under the keys for Databricks.
pub open spec fn stands_for_databricks(block: Mapping, given: DatabricksView) -> bool {
    &&& text_stands(block, "file_format"@, given.file_format)
    &&& text_stands(block, "location_root"@, given.location_root)
    &&& flag_stands(block, "use_uniform"@, given.use_uniform)
}

/// Whether `given` is what stands in `block` under the keys for Snowflake.
pub open spec fn stands_for_snowflake(block: Mapping, given: SnowflakeView) -> bool {
    &&& text_stands(block, "catalog_database"@, given.catalog_database)
    &&& text_stands(block, "external_volume"@, given.external_volume)
    &&& text_stands(block, "base_location_root"@, given.base_location_root)
    &&& flag_stands(block, "change_tracking"@, given.change_tracking)
    &&& number_stands(block, "data_retention_time_in_days"@, given.data_retention_time_in_days)
    &&& number_stands(
        block,
        "max_data_extension_time_in_days"@,
        given.max_data_extension_time_in_days,
    )
    &&& text_stands(block, "storage_serialization_policy"@, given.storage_serialization_policy)
    &&& text_stands(block, "iceberg_version"@, given.iceberg_version)
    &&& flag_stands(block, "auto_refresh"@, given.auto_refresh)
    &&& text_stands(block, "target_file_size"@, given.target_file_size)
}

/// Whether `given` is what stands in `block` under the keys for BigQuery.
pub open spec fn stands_for_bigquery(block: Mapping, given: BigqueryView) -> bool {
    &&& text_stands(block, "external_volume"@, given.external_volume)
    &&& text_stands(block, "file_format"@, given.file_format)
    &&& text_stands(block, "base_location_root"@, given.base_location_root)
    &&& text_stands(block, "connection_id"@, given.connection_id)
}

/// Whether `given` is what stands in `block` under the keys for DuckDB.
pub open spec fn stands_for_duckdb(block: Mapping, given: DuckdbView) -> bool {
    &&& text_stands(block, "endpoint"@, given.endpoint)
    &&& text_stands(block, "endpoint_type"@, given.endpoint_type)
    &&& text_stands(block, "warehouse"@, given.warehouse)
    &&& text_stands(block, "secret"@, given.secret)
    &&& text_stands(block, "attach_as"@, given.attach_as)
    &&& text_stands(block, "metadata_path"@, given.metadata_path)
    &&& text_stands(block, "data_path"@, given.data_path)
    &&& text_stands(block, "root_path"@, given.root_path)
    &&& text_stands(block, "file_format"@, given.file_format)
}

/// Databricks settings are what the block holds, each under its own key, whatever the block's other
/// keys.
pub proof fn databricks_settings_stand_in_the_block(block: Mapping, given: DatabricksView)
    ensures
        stands_for_databricks(block, given) <==> databricks_settings(block) == given,
{
    readings_are_what_the_block_holds(block, "file_format"@, given.file_format, None, None);
    readings_are_what_the_block_holds(block, "location_root"@, given.location_root, None, None);
    readings_are_what_the_block_holds(block, "use_uniform"@, None, given.use_uniform, None);
}

/// Snowflake settings are what the block holds, each under its own key, whatever the block's other
/// keys.
pub proof fn snowflake_settings_stand_in_the_block(block: Mapping, given: SnowflakeView)
    ensures
        stands_for_snowflake(block, given) <==> snowflake_settings(block) == given,
{
    readings_are_what_the_block_holds(block, "catalog_database"@, given.catalog_database, None, None);
    readings_are_what_the_block_holds(block, "external_volume"@, given.external_volume, None, None);
    readings_are_what_the_block_holds(
        block,
        "base_location_root"@,
        given.base_location_root,
        None,
        None,
    );
    readings_are_what_the_block_holds(block, "change_tracking"@, None, given.change_tracking, None);
    readings_are_what_the_block_holds(
        block,
        "data_retention_time_in_days"@,
        None,
        None,
        given.data_retention_time_in_days,
    );
    readings_are_what_the_block_holds(
        block,
        "max_data_extension_time_in_days"@,
        None,
        None,
        given.max_data_extension_time_in_days,
    );
    readings_are_what_the_block_holds(
        block,
        "storage_serialization_policy"@,
        given.storage_serialization_policy,
        None,
        None,
    );
    readings_are_what_the_block_holds(block, "iceberg_version"@, given.iceberg_version, None, None);
    readings_are_what_the_block_holds(block, "auto_refresh"@, None, given.auto_refresh, None);
    readings_are_what_the_block_holds(block, "target_file_size"@, given.target_file_size, None, None);
}

/// BigQuery settings are what the block holds, each under its own key, whatever the block's other
/// keys.
pub proof fn bigquery_settings_stand_in_the_block(block: Mapping, given: BigqueryView)
    ensures
        stands_for_bigquery(block, given) <==> bigquery_settings(block) == given,
{
    readings_are_what_the_block_holds(block, "external_volume"@, given.external_volume, None, None);
    readings_are_what_the_block_holds(block, "file_format"@, given.file_format, None, None);
    readings_are_what_the_block_holds(
        block,
        "base_location_root"@,
        given.base_location_root,
        None,
        None,
    );
    readings_are_what_the_block_holds(block, "connection_id"@, given.connection_id, None, None);
}

/// DuckDB settings are what the block holds, each under its own key, whatever the block's other
/// keys.
pub proof fn duckdb_settings_stand_in_the_block(block: Mapping, given: DuckdbView)
    ensures
        stands_for_duckdb(block, given) <==> duckdb_settings(block) == given,
{
    readings_are_what_the_block_holds(block, "endpoint"@, given.endpoint, None, None);
    readings_are_what_the_block_holds(block, "endpoint_type"@, given.endpoint_type, None, None);
    readings_are_what_the_block_holds(block, "warehouse"@, given.warehouse, None, None);
    readings_are_what_the_block_holds(block, "secret"@, given.secret, None, None);
    readings_are_what_the_block_holds(block, "attach_as"@, given.attach_as, None, None);
    readings_are_what_the_block_holds(block, "metadata_path"@, given.metadata_path, None, None);
    readings_are_what_the_block_holds(block, "data_path"@, given.data_path, None, None);
    readings_are_what_the_block_holds(block, "root_path"@, given.root_path, None, None);
    readings_are_what_the_block_holds(block, "file_format"@, given.file_format, None, None);
}

/// Settings and readings are spoken of by what their fields hold.
pub proof fn settings_are_their_fields(
    databricks: DatabricksSettings,
    snowflake: SnowflakeSettings,
    bigquery: BigquerySettings,
    duckdb: DuckdbSettings,
    scalar: YamlScalar,
)
    ensures
        databricks@.file_format == text_of(databricks.file_format),
        databricks@.location_root == text_of(databricks.location_root),
        databricks@.use_uniform == databricks.use_uniform,
        snowflake@.catalog_database == text_of(snowflake.catalog_database),
        snowflake@.external_volume == text_of(snowflake.external_volume),
        snowflake@.base_location_root == text_of(snowflake.base_location_root),
        snowflake@.change_tracking == snowflake.change_tracking,
        snowflake@.data_retention_time_in_days == snowflake.data_retention_time_in_days,
        snowflake@.max_data_extension_time_in_days == snowflake.max_data_extension_time_in_days,
        snowflake@.storage_serialization_policy == text_of(snowflake.storage_serialization_policy),
        snowflake@.iceberg_version == text_of(snowflake.iceberg_version),
        snowflake@.auto_refresh == snowflake.auto_refresh,
        snowflake@.target_file_size == text_of(snowflake.target_file_size),
        bigquery@.external_volume == text_of(bigquery.external_volume),
        bigquery@.file_format == text_of(bigquery.file_format),
        bigquery@.base_location_root == text_of(bigquery.base_location_root),
        bigquery@.connection_id == text_of(bigquery.connection_id),
        duckdb@.endpoint == text_of(duckdb.endpoint),
        duckdb@.endpoint_type == text_of(duckdb.endpoint_type),
        duckdb@.warehouse == text_of(duckdb.warehouse),
        duckdb@.secret == text_of(duckdb.secret),
        duckdb@.attach_as == text_of(duckdb.attach_as),
        duckdb@.metadata_path == text_of(duckdb.metadata_path),
        duckdb@.data_path == text_of(duckdb.data_path),
        duckdb@.root_path == text_of(duckdb.root_path),
        duckdb@.file_format == text_of(duckdb.file_format),
        scalar@.text == text_of(scalar.text),
        scalar@.flag == scalar.flag,
        scalar@.signed == scalar.signed,
        scalar@.unsigned == scalar.unsigned,
{
}

} // verus!
