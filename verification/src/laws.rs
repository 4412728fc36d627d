//! What holds of every relation, whatever the model and the catalogs.

use vstd::prelude::*;

use crate::adapter::{configuration_error, AdapterErrorKind, AdapterType, ErrorView};
use crate::bigquery::{
    biglake_refusal, biglake_relation, biglake_values_refusal, biglake_volume, bigquery_settings,
    storage_uri, BigqueryView,
};
use crate::catalogs::{find_catalog, CatalogSpecV2View, DbtCatalogsV2View, V2CatalogType};
use crate::databricks::{
    databricks_settings, file_format, hive_format_refusal, hive_refusal, hive_relation,
    unity_refusal, unity_relation, unity_values_refusal, DatabricksView,
};
use crate::duckdb::{
    attached_as, attached_properties, ducklake_properties, local_file_format, DuckdbView,
};
use crate::fields::{
    ADAPTER_PROP_CATALOG_DATABASE, ADAPTER_PROP_LOCATION_ROOT, ADAPTER_PROP_USE_UNIFORM,
    FIELD_AUTO_REFRESH, FIELD_BASE_LOCATION_ROOT, FIELD_CATALOG_NAME, FIELD_CATALOG_TYPE,
    FIELD_CHANGE_TRACKING, FIELD_CONNECTION_ID, FIELD_DATA_RETENTION_TIME_IN_DAYS,
    FIELD_EXTERNAL_VOLUME, FIELD_FILE_FORMAT, FIELD_ICEBERG_VERSION, FIELD_LOCATION_ROOT,
    FIELD_MAX_DATA_EXTENSION_TIME_IN_DAYS, FIELD_STORAGE_SERIALIZATION_POLICY, FIELD_STORAGE_URI,
    FIELD_TARGET_FILE_SIZE, FIELD_TRANSIENT, FIELD_USE_UNIFORM, MODEL_NONE_SENTINEL,
};
use crate::model::{
    attr_section, find_entry, find_section, first_configured, hive_unsupported_fields,
    linked_unsupported_fields, transient_refusal, ConfigEntry, Model, NamedSection, SECTION_CONFIG,
};
use crate::properties::{flag_text, number_text};
use crate::relation::{plain_identifier_char, sanitized, RelationView};
use crate::snowflake::{
    horizon_properties, horizon_refusal, horizon_relation, horizon_values_refusal,
    linked_properties, linked_refusal, linked_relation, snowflake_settings, SnowflakeView,
};
use crate::text::{
    decimal, digits_value, is_blank, is_digit, is_white_space, lowercase, or_else,
    same_ignoring_case, text_of, trim_end, trim_start, trimmed, u32_value, uppercase, without_plus,
};
use crate::v2::{
    asked_location_root, bigquery_outcome, databricks_outcome, duckdb_outcome, outcome,
    snowflake_outcome, unselected_outcome, v2_outcome, ProjectContext,
};

verus! {

/// A model that carries `adapter_properties` gets no relation, on whatever adapter.
pub proof fn adapter_properties_are_refused(
    adapter_type: AdapterType,
    model: Model,
    catalogs: Result<DbtCatalogsV2View, String>,
    context: ProjectContext,
)
    requires
        model.has_adapter_properties(adapter_type),
    ensures
        v2_outcome(adapter_type, model, catalogs, context) == Err::<RelationView, ErrorView>(
            configuration_error(
                "catalogs.yml v2 supports top-level model overrides only; model adapter_properties are not supported"@,
            ),
        ),
{
}

/// What a model gets that selects no catalog does not depend on `catalogs.yml`, not even on
/// whether it can be read.
pub proof fn without_a_catalog_catalogs_do_not_matter(
    adapter_type: AdapterType,
    model: Model,
    catalogs: Result<DbtCatalogsV2View, String>,
    others: Result<DbtCatalogsV2View, String>,
    context: ProjectContext,
)
    requires
        model.selected_catalog(adapter_type) is None,
    ensures
        v2_outcome(adapter_type, model, catalogs, context) == v2_outcome(
            adapter_type,
            model,
            others,
            context,
        ),
{
}

/// The word for no catalog, in small letters or capitals and with white space round it or not, is
/// as good as no catalog name: the model gets what it gets without a catalog.
pub proof fn the_word_none_selects_no_catalog(
    adapter_type: AdapterType,
    model: Model,
    catalogs: Result<DbtCatalogsV2View, String>,
    context: ProjectContext,
)
    requires
        match model.text(FIELD_CATALOG_NAME@, adapter_type) {
            Some(text) => same_ignoring_case(trimmed(text), MODEL_NONE_SENTINEL@),
            None => true,
        },
    ensures
        model.selected_catalog(adapter_type) is None,
        !model.has_adapter_properties(adapter_type) ==> v2_outcome(
            adapter_type,
            model,
            catalogs,
            context,
        ) == unselected_outcome(adapter_type, model, context),
{
}

/// The first catalog with a name is one of the catalogs, has the name, and none before it has it;
/// there is none only where no catalog has the name.
pub proof fn found_catalog_is_the_first(catalogs: Seq<CatalogSpecV2View>, name: Seq<char>)
    ensures
        match find_catalog(catalogs, name) {
            Some(catalog) => exists|i: int|
                0 <= i < catalogs.len() && #[trigger] catalogs[i] == catalog && catalog.name@ == name
                    && forall|j: int| 0 <= j < i ==> (#[trigger] catalogs[j]).name@ != name,
            None => forall|i: int| 0 <= i < catalogs.len() ==> (#[trigger] catalogs[i]).name@ != name,
        },
    decreases catalogs.len(),
{
    if catalogs.len() > 0 {
        let rest = catalogs.drop_first();
        if catalogs[0].name@ != name {
            found_catalog_is_the_first(rest, name);
            match find_catalog(rest, name) {
                Some(catalog) => {
                    let i = choose|i: int|
                        0 <= i < rest.len() && #[trigger] rest[i] == catalog && catalog.name@ == name
                            && forall|j: int| 0 <= j < i ==> (#[trigger] rest[j]).name@ != name;
                    assert(catalogs[i + 1] == rest[i]);
                    assert forall|j: int| 0 <= j < i + 1 implies (#[trigger] catalogs[j]).name@
                        != name by {
                        if j > 0 {
                            assert(catalogs[j] == rest[j - 1]);
                        }
                    }
                },
                None => {
                    assert forall|i: int| 0 <= i < catalogs.len() implies (#[trigger] catalogs[i]).name@
                        != name by {
                        if i > 0 {
                            assert(catalogs[i] == rest[i - 1]);
                        }
                    }
                },
            }
        }
    }
}

/// Whether the adapter has relations in catalogs of the kind.
pub open spec fn supports(adapter_type: AdapterType, kind: V2CatalogType) -> bool {
    match adapter_type {
        AdapterType::Databricks => kind == V2CatalogType::Unity || kind
            == V2CatalogType::HiveMetastore,
        AdapterType::Snowflake => kind == V2CatalogType::Horizon || kind == V2CatalogType::Glue
            || kind == V2CatalogType::IcebergRest || kind == V2CatalogType::Unity,
        AdapterType::Bigquery => kind == V2CatalogType::BiglakeMetastore,
        AdapterType::DuckDB => kind == V2CatalogType::Glue || kind == V2CatalogType::IcebergRest
            || kind == V2CatalogType::DuckLake || kind == V2CatalogType::LocalFilesystem,
        AdapterType::Other(_) => false,
    }
}

/// A model that selects a catalog and gets a relation gets one of its own adapter, under the name
/// that it selected and without an integration. `catalogs.yml` then defines a catalog of that
/// name, of a kind that the adapter supports, and the model does not say what kind it is.
pub proof fn relation_is_in_the_selected_catalog(
    adapter_type: AdapterType,
    model: Model,
    catalogs: Result<DbtCatalogsV2View, String>,
    context: ProjectContext,
)
    requires
        model.selected_catalog(adapter_type) is Some,
        v2_outcome(adapter_type, model, catalogs, context) is Ok,
    ensures
        ({
            let name = model.selected_catalog(adapter_type)->0;
            let relation = v2_outcome(adapter_type, model, catalogs, context)->Ok_0;
            &&& relation.adapter_type == adapter_type
            &&& relation.catalog_name == Some(name)
            &&& relation.integration_name is None
            &&& !model.has(FIELD_CATALOG_TYPE@, adapter_type)
            &&& catalogs is Ok
            &&& find_catalog(catalogs->Ok_0.catalogs@, name) is Some
            &&& supports(adapter_type, find_catalog(catalogs->Ok_0.catalogs@, name)->0.catalog_type)
        }),
{
}

/// No relation in a Snowflake catalog is transient, a model that asks for a transient one gets
/// none, and `transient: false` is no reason to refuse a model.
pub proof fn snowflake_catalog_relations_are_not_transient(
    model: Model,
    catalogs: Result<DbtCatalogsV2View, String>,
    context: ProjectContext,
)
    requires
        model.selected_catalog(AdapterType::Snowflake) is Some,
    ensures
        ({
            let given = v2_outcome(AdapterType::Snowflake, model, catalogs, context);
            &&& given is Ok ==> given->Ok_0.is_transient == Some(false)
            &&& model.flag(FIELD_TRANSIENT@, AdapterType::Snowflake) == Some(true) ==> given is Err
            &&& model.flag(FIELD_TRANSIENT@, AdapterType::Snowflake) == Some(false)
                ==> transient_refusal(model) is None
        }),
{
}

/// Every error that these rules give is one of configuration, but for adapters without catalog
/// relations, whose error is internal.
pub proof fn errors_are_of_configuration(
    adapter_type: AdapterType,
    model: Model,
    catalogs: Result<DbtCatalogsV2View, String>,
    context: ProjectContext,
)
    requires
        v2_outcome(adapter_type, model, catalogs, context) is Err,
        adapter_type is Snowflake ==> model.selected_catalog(adapter_type) is Some,
    ensures
        v2_outcome(adapter_type, model, catalogs, context)->Err_0.kind == (if adapter_type is Other
            && !model.has_adapter_properties(adapter_type) {
            AdapterErrorKind::Internal
        } else {
            AdapterErrorKind::Configuration
        }),
{
}

/// Whether two models say the same to `adapter_type`, wherever they say it.
pub open spec fn say_the_same(a: Model, b: Model, adapter_type: AdapterType) -> bool {
    &&& forall|key: Seq<char>| #[trigger] a.value(key, adapter_type) == b.value(key, adapter_type)
    &&& a.has_adapter_properties(adapter_type) == b.has_adapter_properties(adapter_type)
}

proof fn lemma_first_configured_same(
    a: Model,
    b: Model,
    keys: Seq<Seq<char>>,
    adapter_type: AdapterType,
)
    requires
        say_the_same(a, b, adapter_type),
    ensures
        first_configured(a, keys, adapter_type) == first_configured(b, keys, adapter_type),
    decreases keys.len(),
{
    if keys.len() > 0 {
        lemma_first_configured_same(a, b, keys.drop_first(), adapter_type);
    }
}

/// To hold all fields once more in the older layout says nothing else.
pub proof fn older_layout_says_the_same(flat: Model, older: Model, adapter_type: AdapterType)
    requires
        flat.sections@.len() == 0,
        older.fields == flat.fields,
        older.sections@.len() == 1,
        older.sections@[0].name@ == SECTION_CONFIG@,
        older.sections@[0].section == flat.fields,
    ensures
        say_the_same(flat, older, adapter_type),
{
    assert(older.sections@.drop_first() =~= Seq::<NamedSection>::empty());
    reveal_with_fuel(find_section, 2);
}

proof fn lemma_find_entry_in_parts(
    front: Seq<ConfigEntry>,
    back: Seq<ConfigEntry>,
    key: Seq<char>,
)
    ensures
        find_entry(front + back, key) == or_else(find_entry(front, key), find_entry(back, key)),
    decreases front.len(),
{
    if front.len() == 0 {
        assert(front + back =~= back);
    } else {
        assert((front + back).drop_first() =~= front.drop_first() + back);
        lemma_find_entry_in_parts(front.drop_first(), back, key);
    }
}

/// To move the last of the top-level fields to the adapter's own fields says nothing else.
pub proof fn split_layout_says_the_same(flat: Model, split: Model, adapter_type: AdapterType)
    requires
        attr_section(adapter_type) is Some,
        flat.sections@.len() == 0,
        split.sections@.len() == 1,
        split.sections@[0].name@ == attr_section(adapter_type)->0,
        flat.fields.entries@ == split.fields.entries@ + split.sections@[0].section.entries@,
        flat.fields.adapter_properties is Some == (split.fields.adapter_properties is Some
            || split.sections@[0].section.adapter_properties is Some),
    ensures
        say_the_same(flat, split, adapter_type),
{
    let own = split.sections@[0].section;
    assert(split.sections@.drop_first() =~= Seq::<NamedSection>::empty());
    reveal_with_fuel(find_section, 2);
    reveal_strlit("config");
    assert("config"@.len() == 6);
    reveal_strlit("snowflake_attr");
    reveal_strlit("bigquery_attr");
    reveal_strlit("databricks_attr");
    reveal_strlit("duckdb_attr");
    assert(attr_section(adapter_type)->0.len() > 6);
    assert forall|key: Seq<char>| #[trigger]
        flat.value(key, adapter_type) == split.value(key, adapter_type) by {
        lemma_find_entry_in_parts(split.fields.entries@, own.entries@, key);
    }
}

proof fn lemma_same_databricks(
    a: Model,
    b: Model,
    catalog: CatalogSpecV2View,
    name: Seq<char>,
    volume: Option<Seq<char>>,
)
    requires
        say_the_same(a, b, AdapterType::Databricks),
    ensures
        databricks_outcome(a, catalog, name, volume) == databricks_outcome(b, catalog, name, volume),
{
    lemma_first_configured_same(a, b, hive_unsupported_fields(), AdapterType::Databricks);
}

proof fn lemma_same_horizon(a: Model, b: Model, settings: SnowflakeView)
    requires
        say_the_same(a, b, AdapterType::Snowflake),
    ensures
        horizon_values_refusal(a) == horizon_values_refusal(b),
        horizon_properties(a, settings) == horizon_properties(b, settings),
{
}

proof fn lemma_same_linked(a: Model, b: Model, settings: SnowflakeView)
    requires
        say_the_same(a, b, AdapterType::Snowflake),
    ensures
        linked_properties(a, settings) == linked_properties(b, settings),
{
}

proof fn lemma_same_snowflake(a: Model, b: Model, catalog: CatalogSpecV2View, name: Seq<char>)
    requires
        say_the_same(a, b, AdapterType::Snowflake),
    ensures
        snowflake_outcome(a, catalog, name) == snowflake_outcome(b, catalog, name),
{
    let settings = snowflake_settings(catalog.block("snowflake"@)->0);
    lemma_first_configured_same(a, b, linked_unsupported_fields(), AdapterType::Snowflake);
    lemma_same_horizon(a, b, settings);
    lemma_same_linked(a, b, settings);
    assert(horizon_refusal(a, catalog, name) == horizon_refusal(b, catalog, name));
    let kind = catalog.catalog_type.word();
    assert(linked_refusal(a, catalog, name, kind) == linked_refusal(b, catalog, name, kind));
}

proof fn lemma_same_bigquery(a: Model, b: Model, catalog: CatalogSpecV2View, name: Seq<char>)
    requires
        say_the_same(a, b, AdapterType::Bigquery),
    ensures
        bigquery_outcome(a, catalog, name) == bigquery_outcome(b, catalog, name),
{
    let settings = bigquery_settings(catalog.block("bigquery"@)->0);
    assert(storage_uri(a, settings) == storage_uri(b, settings));
}

proof fn lemma_same_duckdb(a: Model, b: Model, catalog: CatalogSpecV2View, name: Seq<char>)
    requires
        say_the_same(a, b, AdapterType::DuckDB),
    ensures
        duckdb_outcome(a, catalog, name) == duckdb_outcome(b, catalog, name),
{
}

/// Where in its configuration a model says something makes no difference to what it gets.
pub proof fn layout_does_not_matter(
    adapter_type: AdapterType,
    a: Model,
    b: Model,
    catalogs: Result<DbtCatalogsV2View, String>,
    context: ProjectContext,
)
    requires
        say_the_same(a, b, adapter_type),
    ensures
        v2_outcome(adapter_type, a, catalogs, context) == v2_outcome(
            adapter_type,
            b,
            catalogs,
            context,
        ),
{
    assert(a.selected_catalog(adapter_type) == b.selected_catalog(adapter_type));
    assert(unselected_outcome(adapter_type, a, context) == unselected_outcome(
        adapter_type,
        b,
        context,
    ));
    if let (Some(name), Ok(view)) = (a.selected_catalog(adapter_type), catalogs) {
        if let Some(catalog) = find_catalog(view.catalogs@, name) {
            match adapter_type {
                AdapterType::Databricks => lemma_same_databricks(
                    a,
                    b,
                    catalog,
                    name,
                    text_of(context.external_volume),
                ),
                AdapterType::Snowflake => lemma_same_snowflake(a, b, catalog, name),
                AdapterType::Bigquery => lemma_same_bigquery(a, b, catalog, name),
                AdapterType::DuckDB => lemma_same_duckdb(a, b, catalog, name),
                AdapterType::Other(_) => {},
            }
        }
    }
}

proof fn lemma_trim_start(s: Seq<char>)
    ensures
        trim_start(s).len() > 0 ==> !is_white_space(trim_start(s)[0]),
    decreases s.len(),
{
    if s.len() > 0 && is_white_space(s[0]) {
        lemma_trim_start(s.drop_first());
    }
}

proof fn lemma_trim_end(s: Seq<char>)
    ensures
        trim_end(s).len() > 0 ==> !is_white_space(trim_end(s).last()),
        trim_end(s).len() > 0 ==> s.len() > 0 && trim_end(s)[0] == s[0],
    decreases s.len(),
{
    if s.len() > 0 && is_white_space(s.last()) {
        lemma_trim_end(s.drop_last());
    }
}

/// A trimmed text has no white space at its ends, so to trim it once more changes nothing.
pub proof fn trimming_is_idempotent(s: Seq<char>)
    ensures
        trimmed(s).len() > 0 ==> !is_white_space(trimmed(s)[0]) && !is_white_space(trimmed(s).last()),
        trimmed(trimmed(s)) == trimmed(s),
{
    lemma_trim_start(s);
    lemma_trim_end(trim_start(s));
}

/// The catalog name of a relation has no white space at its ends and is not the word for no
/// catalog.
pub proof fn selected_catalog_is_trimmed(adapter_type: AdapterType, model: Model)
    ensures
        model.selected_catalog(adapter_type) matches Some(name) ==> trimmed(name) == name
            && !same_ignoring_case(name, MODEL_NONE_SENTINEL@),
{
    if let Some(name) = model.selected_catalog(adapter_type) {
        trimming_is_idempotent(model.text(FIELD_CATALOG_NAME@, adapter_type)->0);
    }
}

/// Small letters stay small, and texts that differ in case alone have one form in small letters.
pub proof fn lowercase_is_idempotent(s: Seq<char>)
    ensures
        lowercase(lowercase(s)) == lowercase(s),
        same_ignoring_case(lowercase(s), s),
{
    assert(lowercase(lowercase(s)) =~= lowercase(s));
}

/// Capitals stay capitals.
pub proof fn uppercase_is_idempotent(s: Seq<char>)
    ensures
        uppercase(uppercase(s)) == uppercase(s),
{
    assert(uppercase(uppercase(s)) =~= uppercase(s));
}

proof fn lemma_decimal(n: nat)
    ensures
        decimal(n).len() > 0,
        forall|i: int| 0 <= i < decimal(n).len() ==> is_digit(#[trigger] decimal(n)[i]),
        digits_value(decimal(n)) == n,
    decreases n,
{
    let text = decimal(n);
    assert((text.last() as u32) - ('0' as u32) == n % 10);
    if n < 10 {
        assert(digits_value(text.drop_last()) == 0);
    } else {
        lemma_decimal(n / 10);
        assert(text.drop_last() =~= decimal(n / 10));
    }
}

/// A number that is written as a property reads back as the same number.
pub proof fn decimal_reads_back(n: u32)
    ensures
        u32_value(decimal(n as nat)) == Some(n),
{
    lemma_decimal(n as nat);
    assert(is_digit(decimal(n as nat)[0]));
    assert(without_plus(decimal(n as nat)) == decimal(n as nat));
}

/// What a DuckDB database is attached as is an identifier as long as the name that was asked for;
/// a name that is one already is kept, so to make it one twice changes nothing.
pub proof fn sanitized_is_an_identifier(name: Seq<char>)
    ensures
        sanitized(name).len() == name.len(),
        forall|i: int|
            0 <= i < name.len() ==> plain_identifier_char(#[trigger] sanitized(name)[i]),
        (forall|i: int| 0 <= i < name.len() ==> plain_identifier_char(#[trigger] name[i]))
            ==> sanitized(name) == name,
        sanitized(sanitized(name)) == sanitized(name),
{
    assert(sanitized(sanitized(name)) =~= sanitized(name));
    if forall|i: int| 0 <= i < name.len() ==> plain_identifier_char(#[trigger] name[i]) {
        assert(sanitized(name) =~= name);
    }
}

/// A Unity relation is Delta with UniForm or Parquet without it, and says which.
pub proof fn unity_is_uniform_delta_or_plain_parquet(
    model: Model,
    catalog: CatalogSpecV2View,
    catalog_name: Seq<char>,
    external_volume: Option<Seq<char>>,
)
    requires
        unity_refusal(model, catalog, catalog_name) is None,
    ensures
        ({
            let relation = unity_relation(
                model,
                databricks_settings(catalog.block("databricks"@)->0),
                catalog.table_format@,
                catalog_name,
                external_volume,
            );
            let uniform = relation.adapter_properties[ADAPTER_PROP_USE_UNIFORM@];
            &&& relation.adapter_properties.contains_key(ADAPTER_PROP_USE_UNIFORM@)
            &&& {
                ||| relation.file_format == Some("delta"@) && uniform == "true"@
                ||| relation.file_format == Some("parquet"@) && uniform == "false"@
            }
        }),
{
}

/// A relation in a Databricks catalog has an external volume only where there is a location root to
/// ask about: the root is then not blank, stands among the properties, and the volume is the one
/// that the project gave for it.
pub proof fn external_volume_belongs_to_the_location_root(
    model: Model,
    catalogs: Result<DbtCatalogsV2View, String>,
    context: ProjectContext,
)
    requires
        model.selected_catalog(AdapterType::Databricks) is Some,
        v2_outcome(AdapterType::Databricks, model, catalogs, context) is Ok,
    ensures
        ({
            let relation = v2_outcome(AdapterType::Databricks, model, catalogs, context)->Ok_0;
            let asked = asked_location_root(model, catalogs);
            &&& has_property(relation.adapter_properties, ADAPTER_PROP_LOCATION_ROOT@, asked)
            &&& match asked {
                Some(root) => !is_blank(root) && relation.external_volume == text_of(
                    context.external_volume,
                ),
                None => relation.external_volume is None,
            }
        }),
{
    reveal_strlit("location_root");
    assert("location_root"@.len() == 13);
    reveal_strlit("use_uniform");
    assert("use_uniform"@.len() == 11);
}

/// Only where a Databricks model has a location root to ask about does the external volume make a
/// difference.
pub proof fn external_volume_matters_only_where_asked(
    adapter_type: AdapterType,
    model: Model,
    catalogs: Result<DbtCatalogsV2View, String>,
    context: ProjectContext,
    external_volume: Option<String>,
)
    requires
        adapter_type != AdapterType::Databricks || asked_location_root(model, catalogs) is None,
    ensures
        v2_outcome(adapter_type, model, catalogs, context) == v2_outcome(
            adapter_type,
            model,
            catalogs,
            (ProjectContext { external_volume, ..context }),
        ),
{
}

/// A BigLake relation is stored as Parquet, has a connection only where one is configured, and
/// stands where the model says, or else in a bucket of Google Cloud Storage.
pub proof fn biglake_is_parquet_in_a_bucket(
    model: Model,
    catalog: CatalogSpecV2View,
    catalog_name: Seq<char>,
)
    requires
        biglake_refusal(model, catalog, catalog_name) is None,
    ensures
        ({
            let relation = biglake_relation(
                model,
                bigquery_settings(catalog.block("bigquery"@)->0),
                catalog.table_format@,
                catalog_name,
            );
            let uri = relation.adapter_properties[FIELD_STORAGE_URI@];
            &&& relation.file_format == Some("parquet"@)
            &&& has_property(
                relation.adapter_properties,
                FIELD_CONNECTION_ID@,
                or_else(
                    model.text(FIELD_CONNECTION_ID@, AdapterType::Bigquery),
                    bigquery_settings(catalog.block("bigquery"@)->0).connection_id,
                ),
            )
            &&& relation.adapter_properties.contains_key(FIELD_STORAGE_URI@)
            &&& match model.text(FIELD_STORAGE_URI@, AdapterType::Bigquery) {
                Some(asked) => uri == asked,
                None => "gs://"@.is_prefix_of(uri),
            }
        }),
{
    let settings = bigquery_settings(catalog.block("bigquery"@)->0);
    reveal_strlit("connection_id");
    assert("connection_id"@.len() == 13);
    reveal_strlit("storage_uri");
    assert("storage_uri"@.len() == 11);
    reveal_strlit("parquet");
    assert(lowercase("parquet"@) =~= "parquet"@);
    let volume = biglake_volume(model, settings)->0;
    let uri = storage_uri(model, settings);
    if model.text(FIELD_STORAGE_URI@, AdapterType::Bigquery) is None {
        assert("gs://"@.is_prefix_of(volume));
        assert("gs://"@ =~= uri.subrange(0, "gs://"@.len() as int));
    }
}

/// On BigQuery a catalog's value that the model overrides makes no difference.
pub proof fn biglake_prefers_the_model(
    model: Model,
    settings: BigqueryView,
    others: BigqueryView,
    table_format: Seq<char>,
    catalog_name: Seq<char>,
)
    requires
        model.has(FIELD_EXTERNAL_VOLUME@, AdapterType::Bigquery) || settings.external_volume
            == others.external_volume,
        model.has(FIELD_FILE_FORMAT@, AdapterType::Bigquery) || settings.file_format
            == others.file_format,
        model.has(FIELD_BASE_LOCATION_ROOT@, AdapterType::Bigquery) || settings.base_location_root
            == others.base_location_root,
        model.has(FIELD_CONNECTION_ID@, AdapterType::Bigquery) || settings.connection_id
            == others.connection_id,
    ensures
        biglake_values_refusal(model, settings, catalog_name) == biglake_values_refusal(
            model,
            others,
            catalog_name,
        ),
        biglake_relation(model, settings, table_format, catalog_name) == biglake_relation(
            model,
            others,
            table_format,
            catalog_name,
        ),
{
}

/// In a Hive metastore only the file format of the catalog makes a difference, and that only where
/// the model gives none.
pub proof fn hive_takes_the_file_format_alone(
    model: Model,
    settings: DatabricksView,
    others: DatabricksView,
    table_format: Seq<char>,
    catalog_name: Seq<char>,
)
    requires
        model.has(FIELD_FILE_FORMAT@, AdapterType::Databricks) || settings.file_format
            == others.file_format,
    ensures
        outcome(
            hive_format_refusal(file_format(model, settings)),
            hive_relation(model, settings, table_format, catalog_name),
        ) == outcome(
            hive_format_refusal(file_format(model, others)),
            hive_relation(model, others, table_format, catalog_name),
        ),
{
}

/// In Unity Catalog a catalog's value that the model overrides makes no difference, to the relation
/// or to the error. A `use_uniform` that cannot be read as a flag overrides too: it is the error.
pub proof fn databricks_prefers_the_model(
    model: Model,
    settings: DatabricksView,
    others: DatabricksView,
    table_format: Seq<char>,
    catalog_name: Seq<char>,
    external_volume: Option<Seq<char>>,
)
    requires
        model.has(FIELD_FILE_FORMAT@, AdapterType::Databricks) || settings.file_format
            == others.file_format,
        model.has(FIELD_LOCATION_ROOT@, AdapterType::Databricks) || settings.location_root
            == others.location_root,
        model.flag(FIELD_USE_UNIFORM@, AdapterType::Databricks) is Some || model.flag_refusal(
            FIELD_USE_UNIFORM@,
            AdapterType::Databricks,
        ) is Some || settings.use_uniform == others.use_uniform,
    ensures
        outcome(
            unity_values_refusal(model, settings),
            unity_relation(model, settings, table_format, catalog_name, external_volume),
        ) == outcome(
            unity_values_refusal(model, others),
            unity_relation(model, others, table_format, catalog_name, external_volume),
        ),
{
}

/// In local files on DuckDB a file format that the model gives overrides the catalog's.
pub proof fn local_files_prefer_the_model(model: Model, settings: DuckdbView)
    ensures
        model.text(FIELD_FILE_FORMAT@, AdapterType::DuckDB) matches Some(format)
            ==> local_file_format(model, settings) == lowercase(format),
{
}

/// Whether `properties` have `value` under `name`, or nothing where there is no value.
pub open spec fn has_property(
    properties: Map<Seq<char>, Seq<char>>,
    name: Seq<char>,
    value: Option<Seq<char>>,
) -> bool {
    match value {
        Some(value) => properties.contains_key(name) && properties[name] == value,
        None => !properties.contains_key(name),
    }
}

/// In a Horizon relation each value that the model gives overrides the catalog's, and where the
/// model is silent the catalog's stands; what neither gives is not there.
pub proof fn horizon_prefers_the_model(
    model: Model,
    settings: SnowflakeView,
    table_format: Seq<char>,
    catalog_name: Seq<char>,
)
    ensures
        ({
            let relation = horizon_relation(model, settings, table_format, catalog_name);
            let properties = relation.adapter_properties;
            let adapter = AdapterType::Snowflake;
            &&& relation.external_volume == or_else(
                model.text(FIELD_EXTERNAL_VOLUME@, adapter),
                settings.external_volume,
            )
            &&& has_property(
                properties,
                FIELD_CHANGE_TRACKING@,
                flag_text(
                    or_else(model.flag(FIELD_CHANGE_TRACKING@, adapter), settings.change_tracking),
                ),
            )
            &&& has_property(
                properties,
                FIELD_DATA_RETENTION_TIME_IN_DAYS@,
                number_text(
                    or_else(
                        model.number(FIELD_DATA_RETENTION_TIME_IN_DAYS@, adapter),
                        settings.data_retention_time_in_days,
                    ),
                ),
            )
            &&& has_property(
                properties,
                FIELD_MAX_DATA_EXTENSION_TIME_IN_DAYS@,
                number_text(
                    or_else(
                        model.number(FIELD_MAX_DATA_EXTENSION_TIME_IN_DAYS@, adapter),
                        settings.max_data_extension_time_in_days,
                    ),
                ),
            )
            &&& has_property(
                properties,
                FIELD_STORAGE_SERIALIZATION_POLICY@,
                or_else(
                    model.text(FIELD_STORAGE_SERIALIZATION_POLICY@, adapter),
                    settings.storage_serialization_policy,
                ),
            )
            &&& has_property(
                properties,
                FIELD_ICEBERG_VERSION@,
                or_else(model.text(FIELD_ICEBERG_VERSION@, adapter), settings.iceberg_version),
            )
        }),
{
    reveal_strlit("change_tracking");
    assert("change_tracking"@.len() == 15);
    reveal_strlit("data_retention_time_in_days");
    assert("data_retention_time_in_days"@.len() == 27);
    reveal_strlit("max_data_extension_time_in_days");
    assert("max_data_extension_time_in_days"@.len() == 31);
    reveal_strlit("storage_serialization_policy");
    assert("storage_serialization_policy"@.len() == 28);
    reveal_strlit("iceberg_version");
    assert("iceberg_version"@.len() == 15);
    assert("change_tracking"@[0] == 'c' && "iceberg_version"@[0] == 'i');
}

/// In a linked relation the database is the catalog's, whatever the model says; of the rest, each
/// value that the model gives overrides the catalog's, and where the model is silent the
/// catalog's stands.
pub proof fn linked_database_is_the_catalogs(
    model: Model,
    settings: SnowflakeView,
    table_format: Seq<char>,
    catalog_name: Seq<char>,
)
    ensures
        ({
            let properties = linked_relation(
                model,
                settings,
                table_format,
                catalog_name,
            ).adapter_properties;
            let adapter = AdapterType::Snowflake;
            &&& has_property(
                properties,
                ADAPTER_PROP_CATALOG_DATABASE@,
                settings.catalog_database,
            )
            &&& has_property(
                properties,
                FIELD_AUTO_REFRESH@,
                flag_text(or_else(model.flag(FIELD_AUTO_REFRESH@, adapter), settings.auto_refresh)),
            )
            &&& has_property(
                properties,
                FIELD_MAX_DATA_EXTENSION_TIME_IN_DAYS@,
                number_text(
                    or_else(
                        model.number(FIELD_MAX_DATA_EXTENSION_TIME_IN_DAYS@, adapter),
                        settings.max_data_extension_time_in_days,
                    ),
                ),
            )
            &&& has_property(
                properties,
                FIELD_TARGET_FILE_SIZE@,
                or_else(model.text(FIELD_TARGET_FILE_SIZE@, adapter), settings.target_file_size),
            )
            &&& has_property(
                properties,
                FIELD_ICEBERG_VERSION@,
                or_else(model.text(FIELD_ICEBERG_VERSION@, adapter), settings.iceberg_version),
            )
        }),
{
    reveal_strlit("catalog_database");
    assert("catalog_database"@.len() == 16);
    reveal_strlit("auto_refresh");
    assert("auto_refresh"@.len() == 12);
    reveal_strlit("max_data_extension_time_in_days");
    assert("max_data_extension_time_in_days"@.len() == 31);
    reveal_strlit("target_file_size");
    assert("target_file_size"@.len() == 16);
    reveal_strlit("iceberg_version");
    assert("iceberg_version"@.len() == 15);
    assert("catalog_database"@[0] == 'c' && "target_file_size"@[0] == 't');
}

/// A relation in an attached catalog has for its properties what the catalog configures, and the
/// name under which the database is attached.
pub proof fn attached_properties_are_the_catalogs(settings: DuckdbView, catalog_name: Seq<char>)
    ensures
        ({
            let properties = attached_properties(settings, catalog_name);
            &&& has_property(properties, "endpoint"@, settings.endpoint)
            &&& has_property(properties, "endpoint_type"@, settings.endpoint_type)
            &&& has_property(properties, "warehouse"@, settings.warehouse)
            &&& has_property(properties, "secret"@, settings.secret)
            &&& has_property(
                properties,
                "attached_database"@,
                Some(attached_as(settings, catalog_name)),
            )
        }),
{
    reveal_strlit("endpoint");
    assert("endpoint"@.len() == 8);
    reveal_strlit("endpoint_type");
    assert("endpoint_type"@.len() == 13);
    reveal_strlit("warehouse");
    assert("warehouse"@.len() == 9);
    reveal_strlit("secret");
    assert("secret"@.len() == 6);
    reveal_strlit("attached_database");
    assert("attached_database"@.len() == 17);
}

/// A relation in DuckLake has for its properties the paths that the catalog configures, and the
/// name under which the database is attached.
pub proof fn ducklake_properties_are_the_catalogs(settings: DuckdbView, catalog_name: Seq<char>)
    ensures
        ({
            let properties = ducklake_properties(settings, catalog_name);
            &&& has_property(properties, "metadata_path"@, settings.metadata_path)
            &&& has_property(properties, "data_path"@, settings.data_path)
            &&& has_property(
                properties,
                "catalog_linked_database"@,
                Some(attached_as(settings, catalog_name)),
            )
        }),
{
    reveal_strlit("metadata_path");
    assert("metadata_path"@.len() == 13);
    reveal_strlit("data_path");
    assert("data_path"@.len() == 9);
    reveal_strlit("catalog_linked_database");
    assert("catalog_linked_database"@.len() == 23);
}

/// The file format of every relation in a catalog is in small letters, and on Snowflake and
/// DuckDB the table format is in capitals.
pub proof fn formats_have_one_case(
    adapter_type: AdapterType,
    model: Model,
    catalogs: Result<DbtCatalogsV2View, String>,
    context: ProjectContext,
)
    requires
        model.selected_catalog(adapter_type) is Some,
        v2_outcome(adapter_type, model, catalogs, context) is Ok,
    ensures
        ({
            let relation = v2_outcome(adapter_type, model, catalogs, context)->Ok_0;
            &&& relation.file_format matches Some(format) ==> lowercase(format) == format
            &&& adapter_type is Snowflake || adapter_type is DuckDB ==> uppercase(
                relation.table_format,
            ) == relation.table_format
        }),
{
    let name = model.selected_catalog(adapter_type)->0;
    let catalog = find_catalog(catalogs->Ok_0.catalogs@, name)->0;
    uppercase_is_idempotent(catalog.table_format@);
    assert forall|s: Seq<char>| #[trigger] lowercase(s) == lowercase(lowercase(s)) by {
        lowercase_is_idempotent(s);
    }
}

/// A model with a field that the catalog of its adapter does not support gets no relation there.
pub proof fn unsupported_fields_are_refused(
    model: Model,
    catalog: CatalogSpecV2View,
    catalog_name: Seq<char>,
    field: Seq<char>,
)
    ensures
        linked_unsupported_fields().contains(field) && model.has(field, AdapterType::Snowflake)
            ==> linked_refusal(model, catalog, catalog_name, catalog.catalog_type.word()) is Some,
        hive_unsupported_fields().contains(field) && model.has(field, AdapterType::Databricks)
            ==> hive_refusal(model, catalog, catalog_name) is Some,
{
    lemma_first_configured_finds(model, linked_unsupported_fields(), AdapterType::Snowflake, field);
    lemma_first_configured_finds(model, hive_unsupported_fields(), AdapterType::Databricks, field);
}

proof fn lemma_first_configured_finds(
    model: Model,
    keys: Seq<Seq<char>>,
    adapter_type: AdapterType,
    key: Seq<char>,
)
    ensures
        keys.contains(key) && model.has(key, adapter_type) ==> first_configured(
            model,
            keys,
            adapter_type,
        ) is Some,
    decreases keys.len(),
{
    if keys.len() > 0 && keys.contains(key) {
        if keys[0] != key {
            let i = choose|i: int| 0 <= i < keys.len() && keys[i] == key;
            assert(keys.drop_first()[i - 1] == key);
        }
        lemma_first_configured_finds(model, keys.drop_first(), adapter_type, key);
    }
}

} // verus!
