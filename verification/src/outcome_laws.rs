//! What every model gets, from its own fields and from what stands in `catalogs.yml`.

use dbt_yaml::Mapping;
use vstd::prelude::*;

use crate::adapter::{AdapterErrorKind, AdapterResult, AdapterType, ErrorView};
use crate::bigquery::{
    biglake_refusal, biglake_relation, biglake_values_refusal, bigquery_settings, BigqueryView,
};
use crate::catalogs::{find_catalog, CatalogSpecV2View, DbtCatalogsV2View, V2CatalogType};
use crate::databricks::{
    databricks_settings, file_format, hive_format_refusal, hive_refusal, hive_relation,
    unity_refusal, unity_relation, unity_values_refusal, DatabricksView,
};
use crate::duckdb::{
    attached_properties, attached_refusal, attached_values_refusal, duckdb_relation,
    duckdb_settings, ducklake_properties, ducklake_refusal, ducklake_values_refusal,
    local_file_format, local_properties, local_refusal, local_values_refusal, DuckdbView,
};
use crate::input_laws::{
    bigquery_settings_stand_in_the_block, databricks_settings_stand_in_the_block,
    duckdb_settings_stand_in_the_block, first_block, first_catalog, found_block_is_the_first,
    hive_refuses_two_fields, no_block, snowflake_settings_stand_in_the_block, stands_for_bigquery,
    stands_for_databricks, stands_for_duckdb, stands_for_snowflake,
    the_first_catalog_of_a_name_is_found,
};
use crate::laws::{found_catalog_is_the_first, has_property};
use crate::model::{linked_fields_refusal, transient_refusal, Model};
use crate::properties::{flag_text, number_text};
use crate::relation::{
    base_location, builds, duckdb_default, sanitized, CatalogRelation, RelationView,
};
use crate::snowflake::{
    horizon_refusal, horizon_relation, horizon_values_refusal, linked_refusal, linked_relation,
    linked_values_refusal, snowflake_settings, SnowflakeView,
};
use crate::text::{
    is_blank, lowercase, or_else, same_ignoring_case, text_of, trimmed, uppercase,
};
use crate::v2::{
    asked_location_root, catalog_outcome, outcome, outcome_of, v2_outcome, ProjectContext,
};
use crate::yaml::mapping_entries;

verus! {

/// What a model gets: a relation or an error.
pub type Outcome = Result<RelationView, ErrorView>;

/// Whether `given` is an error of configuration with the message `message`.
pub open spec fn refused(given: Outcome, message: Seq<char>) -> bool {
    &&& given is Err
    &&& given->Err_0.kind == AdapterErrorKind::Configuration
    &&& given->Err_0.message == message
}

/// A relation shows its fields, and a result shows the relation or the error that it is. Where
/// there is an error to give, it is given, and else the relation.
pub proof fn results_show_what_they_are(
    relation: CatalogRelation,
    result: AdapterResult<CatalogRelation>,
    refusal: Option<ErrorView>,
    built: RelationView,
)
    ensures
        relation@.adapter_type == relation.adapter_type,
        relation@.catalog_name == text_of(relation.catalog_name),
        relation@.integration_name == text_of(relation.integration_name),
        relation@.catalog_type == relation.catalog_type@,
        relation@.table_format == relation.table_format@,
        relation@.file_format == text_of(relation.file_format),
        relation@.external_volume == text_of(relation.external_volume),
        relation@.base_location == text_of(relation.base_location),
        relation@.adapter_properties == relation.adapter_properties@,
        relation@.is_transient == relation.is_transient,
        result matches Ok(relation) ==> outcome_of(result) == Ok::<RelationView, ErrorView>(relation@),
        result matches Err(e) ==> outcome_of(result) == Err::<RelationView, ErrorView>(e@),
        refusal matches Some(e) ==> outcome(refusal, built) == Err::<RelationView, ErrorView>(e),
        refusal is None ==> outcome(refusal, built) == Ok::<RelationView, ErrorView>(built),
        builds(result, refusal, built) <==> outcome_of(result) == outcome(refusal, built),
{
}

/// Whether the model selects the catalog at `i`, the first with the name `name`, and nothing
/// speaks against it.
pub open spec fn selects(
    adapter_type: AdapterType,
    model: Model,
    catalogs: Result<DbtCatalogsV2View, String>,
    name: Seq<char>,
    i: int,
) -> bool {
    &&& !(adapter_type is Other)
    &&& !model.has_adapter_properties(adapter_type)
    &&& model.selected_catalog(adapter_type) == Some(name)
    &&& catalogs is Ok
    &&& first_catalog(catalogs->Ok_0.catalogs@, name, i)
    &&& !model.has("catalog_type"@, adapter_type)
}

/// What a model gets that selects no catalog: on Databricks and BigQuery the project's default,
/// unless it asks for Iceberg tables, on Snowflake what the project makes of its configuration
/// alone, and on DuckDB an ordinary table of DuckDB. No other adapter has relations.
pub proof fn without_a_catalog_the_default_stands(
    adapter_type: AdapterType,
    model: Model,
    catalogs: Result<DbtCatalogsV2View, String>,
    context: ProjectContext,
)
    requires
        !model.has_adapter_properties(adapter_type),
        model.selected_catalog(adapter_type) is None || adapter_type is Other,
    ensures
        ({
            let given = v2_outcome(adapter_type, model, catalogs, context);
            let wants = |word: Seq<char>|
                model.text("table_format"@, adapter_type) is Some && same_ignoring_case(
                    model.text("table_format"@, adapter_type)->0,
                    word,
                );
            match adapter_type {
                AdapterType::Databricks => if wants("iceberg"@) {
                    refused(
                        given,
                        "On Databricks, table_format=iceberg requires a `catalog_name` to select a v2 catalog (unity or hive_metastore)."@,
                    )
                } else {
                    given == Ok::<RelationView, ErrorView>(context.databricks_default@)
                },
                AdapterType::Bigquery => if wants("ICEBERG"@) {
                    refused(
                        given,
                        "On Bigquery, table_format=iceberg requires catalogs.yml and a `catalog_name` that selects a v2 catalog."@,
                    )
                } else {
                    given == Ok::<RelationView, ErrorView>(context.bigquery_default@)
                },
                AdapterType::Snowflake => match context.without_catalogs_yml {
                    Ok(relation) => given == Ok::<RelationView, ErrorView>(relation@),
                    Err(e) => given == Err::<RelationView, ErrorView>(e@),
                },
                AdapterType::DuckDB => {
                    &&& given is Ok
                    &&& given == Ok::<RelationView, ErrorView>(duckdb_default())
                    &&& plain_duckdb(given->Ok_0)
                },
                AdapterType::Other(name) => {
                    &&& given is Err
                    &&& given->Err_0.kind == AdapterErrorKind::Internal
                    &&& given->Err_0.message
                        == "build_relation_catalog cannot be invoked by an adapter "@ + name@
                },
            }
        }),
{
}

/// Whether `relation` is an ordinary table of DuckDB.
pub open spec fn plain_duckdb(relation: RelationView) -> bool {
    &&& relation.adapter_type is DuckDB
    &&& relation.catalog_name is None
    &&& relation.integration_name is None
    &&& relation.catalog_type == "duckdb"@
    &&& relation.table_format == "default"@
    &&& relation.file_format is None
    &&& relation.external_volume is None
    &&& relation.base_location is None
    &&& relation.adapter_properties == Map::<Seq<char>, Seq<char>>::empty()
    &&& relation.is_transient is None
}

/// A model that selects a catalog gets an error where `catalogs.yml` cannot be read, else where no
/// catalog has the name, and else where the model says what kind the catalog is.
pub proof fn a_selected_catalog_must_be_there(
    adapter_type: AdapterType,
    model: Model,
    catalogs: Result<DbtCatalogsV2View, String>,
    context: ProjectContext,
    name: Seq<char>,
)
    requires
        !(adapter_type is Other),
        !model.has_adapter_properties(adapter_type),
        model.selected_catalog(adapter_type) == Some(name),
    ensures
        ({
            let given = v2_outcome(adapter_type, model, catalogs, context);
            match catalogs {
                Err(message) => refused(given, message@),
                Ok(view) => {
                    &&& (forall|i: int|
                        0 <= i < view.catalogs@.len() ==> (#[trigger] view.catalogs@[i]).name@ != name)
                        ==> refused(given, "Catalog '"@ + name + "' not found in catalogs.yml"@)
                    &&& (exists|i: int|
                        0 <= i < view.catalogs@.len() && (#[trigger] view.catalogs@[i]).name@ == name)
                        && model.has("catalog_type"@, adapter_type) ==> refused(
                        given,
                        "catalog_type may only be specified in write integration entries of catalogs.yml"@,
                    )
                },
            }
        }),
{
    if let Ok(view) = catalogs {
        found_catalog_is_the_first(view.catalogs@, name);
    }
}

/// Whether `relation` is one of the adapter in the catalog `name`.
pub open spec fn stands_in_catalog(
    relation: RelationView,
    adapter_type: AdapterType,
    name: Seq<char>,
    kind: Seq<char>,
    table_format: Seq<char>,
) -> bool {
    &&& relation.adapter_type == adapter_type
    &&& relation.catalog_name == Some(name)
    &&& relation.integration_name is None
    &&& relation.catalog_type == kind
    &&& relation.table_format == table_format
}

/// `/` and `part`, where there is one.
pub open spec fn slash(part: Option<Seq<char>>) -> Seq<char> {
    match part {
        Some(part) => "/"@ + part,
        None => Seq::empty(),
    }
}

/// Where a model's table is stored: under the root, `_dbt` where there is none, in a directory for
/// the schema, in one for the alias, or for the identifier where there is no alias, and in the
/// subpath, each as far as the model has it.
pub open spec fn directory(model: Model, adapter_type: AdapterType, root: Option<Seq<char>>) -> Seq<
    char,
> {
    let root = if root is Some {
        root->0
    } else {
        "_dbt"@
    };
    let name = if model.text("alias"@, adapter_type) is Some {
        model.text("alias"@, adapter_type)
    } else {
        model.text("identifier"@, adapter_type)
    };
    root + slash(model.text("schema"@, adapter_type)) + slash(name) + slash(
        model.text("base_location_subpath"@, adapter_type),
    )
}

proof fn lemma_base_location(
    root: Option<Seq<char>>,
    subpath: Option<Seq<char>>,
    schema: Option<Seq<char>>,
    identifier: Option<Seq<char>>,
)
    ensures
        base_location(root, subpath, schema, identifier) == (if root is Some {
            root->0
        } else {
            "_dbt"@
        }) + slash(schema) + slash(identifier) + slash(subpath),
{
    let start = if root is Some {
        root->0
    } else {
        "_dbt"@
    };
    let one = start + slash(schema);
    assert(one =~= match schema {
        Some(schema) => start + "/"@ + schema,
        None => start,
    });
    let two = one + slash(identifier);
    assert(two =~= match identifier {
        Some(identifier) => one + "/"@ + identifier,
        None => one,
    });
    assert(two + slash(subpath) =~= match subpath {
        Some(subpath) => two + "/"@ + subpath,
        None => two,
    });
}

/// A base location is the root, then the schema, the identifier and the subpath, each after a
/// slash and as far as it is there. Where two base locations differ in one part alone, they differ.
pub proof fn base_locations_are_made_of_their_parts(
    root: Option<Seq<char>>,
    subpath: Option<Seq<char>>,
    schema: Option<Seq<char>>,
    identifier: Option<Seq<char>>,
    other: Option<Seq<char>>,
)
    ensures
        base_location(root, subpath, schema, identifier) == (if root is Some {
            root->0
        } else {
            "_dbt"@
        }) + slash(schema) + slash(identifier) + slash(subpath),
        other != schema ==> base_location(root, subpath, schema, identifier) != base_location(
            root,
            subpath,
            other,
            identifier,
        ),
        other != identifier ==> base_location(root, subpath, schema, identifier) != base_location(
            root,
            subpath,
            schema,
            other,
        ),
        other != subpath ==> base_location(root, subpath, schema, identifier) != base_location(
            root,
            other,
            schema,
            identifier,
        ),
{
    let start = if root is Some {
        root->0
    } else {
        "_dbt"@
    };
    let none = Seq::<char>::empty();
    lemma_base_location(root, subpath, schema, identifier);
    lemma_base_location(root, subpath, other, identifier);
    lemma_base_location(root, subpath, schema, other);
    lemma_base_location(root, other, schema, identifier);
    let end = slash(identifier) + slash(subpath);
    if other != schema {
        assert(start + slash(schema) + slash(identifier) + slash(subpath) =~= start + slash(schema)
            + end);
        assert(start + slash(other) + slash(identifier) + slash(subpath) =~= start + slash(other)
            + end);
        lemma_parts_tell_apart(start, schema, other, end);
    }
    if other != identifier {
        lemma_parts_tell_apart(start + slash(schema), identifier, other, slash(subpath));
    }
    if other != subpath {
        let front = start + slash(schema) + slash(identifier);
        lemma_parts_tell_apart(front, subpath, other, none);
        assert(front + slash(subpath) + none =~= front + slash(subpath));
        assert(front + slash(other) + none =~= front + slash(other));
    }
}

proof fn lemma_parts_tell_apart(
    front: Seq<char>,
    a: Option<Seq<char>>,
    b: Option<Seq<char>>,
    back: Seq<char>,
)
    requires
        a != b,
    ensures
        front + slash(a) + back != front + slash(b) + back,
{
    reveal_strlit("/");
    let (x, y) = (front + slash(a) + back, front + slash(b) + back);
    if x == y {
        assert(x.len() == front.len() + slash(a).len() + back.len());
        assert(y.len() == front.len() + slash(b).len() + back.len());
        assert(slash(a) =~= x.subrange(front.len() as int, (front.len() + slash(a).len()) as int));
        assert(slash(b) =~= y.subrange(front.len() as int, (front.len() + slash(b).len()) as int));
        if let (Some(p), Some(q)) = (a, b) {
            assert(p =~= slash(a).skip(1));
            assert(q =~= slash(b).skip(1));
        }
    }
}

/// Whether `given` is what a Horizon catalog owes the model, where `settings` stand in the
/// catalog's block. The model's values come before the catalog's.
pub open spec fn horizon_owes(
    given: Outcome,
    model: Model,
    settings: SnowflakeView,
    table_format: Seq<char>,
    name: Seq<char>,
) -> bool {
    let adapter = AdapterType::Snowflake;
    let tracking = model.flag_refusal("change_tracking"@, adapter);
    let retention = model.number_refusal("data_retention_time_in_days"@, adapter);
    let extension = model.number_refusal("max_data_extension_time_in_days"@, adapter);
    if tracking is Some {
        given == Err::<RelationView, ErrorView>(tracking->0)
    } else if retention is Some {
        given == Err::<RelationView, ErrorView>(retention->0)
    } else if extension is Some {
        given == Err::<RelationView, ErrorView>(extension->0)
    } else {
        let relation = given->Ok_0;
        let properties = relation.adapter_properties;
        &&& given is Ok
        &&& stands_in_catalog(relation, adapter, name, "BUILT_IN"@, table_format)
        &&& relation.file_format is None
        &&& relation.is_transient == Some(false)
        &&& relation.external_volume == or_else(
            model.text("external_volume"@, adapter),
            settings.external_volume,
        )
        &&& relation.base_location == Some(
            directory(
                model,
                adapter,
                or_else(model.text("base_location_root"@, adapter), settings.base_location_root),
            ),
        )
        &&& has_property(
            properties,
            "change_tracking"@,
            flag_text(or_else(model.flag("change_tracking"@, adapter), settings.change_tracking)),
        )
        &&& has_property(
            properties,
            "data_retention_time_in_days"@,
            number_text(
                or_else(
                    model.number("data_retention_time_in_days"@, adapter),
                    settings.data_retention_time_in_days,
                ),
            ),
        )
        &&& has_property(
            properties,
            "max_data_extension_time_in_days"@,
            number_text(
                or_else(
                    model.number("max_data_extension_time_in_days"@, adapter),
                    settings.max_data_extension_time_in_days,
                ),
            ),
        )
        &&& has_property(
            properties,
            "storage_serialization_policy"@,
            or_else(
                model.text("storage_serialization_policy"@, adapter),
                settings.storage_serialization_policy,
            ),
        )
        &&& has_property(
            properties,
            "iceberg_version"@,
            or_else(model.text("iceberg_version"@, adapter), settings.iceberg_version),
        )
        &&& forall|key: Seq<char>| #[trigger]
            properties.contains_key(key) ==> key == "change_tracking"@ || key
                == "data_retention_time_in_days"@ || key == "max_data_extension_time_in_days"@ || key
                == "storage_serialization_policy"@ || key == "iceberg_version"@
    }
}

/// In a Horizon catalog a model gets what the catalog owes it, whatever the catalog's settings.
pub proof fn horizon_gives_what_it_owes(
    model: Model,
    settings: SnowflakeView,
    table_format: Seq<char>,
    name: Seq<char>,
)
    ensures
        horizon_owes(
            outcome(
                horizon_values_refusal(model),
                horizon_relation(model, settings, table_format, name),
            ),
            model,
            settings,
            table_format,
            name,
        ),
{
    let adapter = AdapterType::Snowflake;
    lemma_base_location(
        or_else(model.text("base_location_root"@, adapter), settings.base_location_root),
        model.text("base_location_subpath"@, adapter),
        model.text("schema"@, adapter),
        model.table_name(adapter),
    );
    reveal_strlit("change_tracking");
    assert("change_tracking"@.len() == 15);
    reveal_strlit("data_retention_time_in_days");
    assert("data_retention_time_in_days"@.len() == 27);
    reveal_strlit("max_data_extension_time_in_days");
    assert("max_data_extension_time_in_days"@.len() == 31);
    reveal_strlit("storage_serialization_policy");
    assert("storage_serialization_policy"@.len() == 28);
    reveal_strlit("iceberg_version");
    assert("iceberg_version"@.len() == 15);
    assert("change_tracking"@[0] == 'c' && "iceberg_version"@[0] == 'i');
}

/// Whether `given` is what a linked Snowflake catalog owes the model, where `settings` stand in the
/// catalog's block.
pub open spec fn linked_owes(
    given: Outcome,
    model: Model,
    settings: SnowflakeView,
    table_format: Seq<char>,
    name: Seq<char>,
    kind: Seq<char>,
) -> bool {
    let adapter = AdapterType::Snowflake;
    let refresh = model.flag_refusal("auto_refresh"@, adapter);
    let extension = model.number_refusal("max_data_extension_time_in_days"@, adapter);
    if settings.catalog_database is None {
        refused(
            given,
            "Catalog '"@ + name + "' "@ + kind + "/snowflake requires catalog_database"@,
        )
    } else if refresh is Some {
        given == Err::<RelationView, ErrorView>(refresh->0)
    } else if extension is Some {
        given == Err::<RelationView, ErrorView>(extension->0)
    } else {
        let relation = given->Ok_0;
        let properties = relation.adapter_properties;
        &&& given is Ok
        &&& stands_in_catalog(relation, adapter, name, "ICEBERG_REST"@, table_format)
        &&& relation.file_format is None
        &&& relation.is_transient == Some(false)
        &&& relation.external_volume is None
        &&& relation.base_location is None
        &&& has_property(properties, "catalog_database"@, settings.catalog_database)
        &&& has_property(
            properties,
            "auto_refresh"@,
            flag_text(or_else(model.flag("auto_refresh"@, adapter), settings.auto_refresh)),
        )
        &&& has_property(
            properties,
            "max_data_extension_time_in_days"@,
            number_text(
                or_else(
                    model.number("max_data_extension_time_in_days"@, adapter),
                    settings.max_data_extension_time_in_days,
                ),
            ),
        )
        &&& has_property(
            properties,
            "target_file_size"@,
            or_else(model.text("target_file_size"@, adapter), settings.target_file_size),
        )
        &&& has_property(
            properties,
            "iceberg_version"@,
            or_else(model.text("iceberg_version"@, adapter), settings.iceberg_version),
        )
        &&& forall|key: Seq<char>| #[trigger]
            properties.contains_key(key) ==> key == "catalog_database"@ || key == "auto_refresh"@
                || key == "max_data_extension_time_in_days"@ || key == "target_file_size"@ || key
                == "iceberg_version"@
    }
}

/// In a linked catalog a model gets what the catalog owes it, whatever the catalog's settings.
pub proof fn linked_catalogs_give_what_they_owe(
    model: Model,
    settings: SnowflakeView,
    table_format: Seq<char>,
    name: Seq<char>,
    kind: Seq<char>,
)
    ensures
        linked_owes(
            outcome(
                linked_values_refusal(model, settings, name, kind),
                linked_relation(model, settings, table_format, name),
            ),
            model,
            settings,
            table_format,
            name,
            kind,
        ),
{
    reveal_strlit("catalog_database");
    assert("catalog_database"@.len() == 16);
    reveal_strlit("auto_refresh");
    assert("auto_refresh"@.len() == 12);
    reveal_strlit("max_data_extension_time_in_days");
    assert("max_data_extension_time_in_days"@.len() == 31);
    reveal_strlit("target_file_size");
    assert("target_file_size"@.len() == 16);
    reveal_strlit("iceberg_version");
    assert("iceberg_version"@.len() == 15);
    assert("catalog_database"@[0] == 'c' && "target_file_size"@[0] == 't');
}

/// Whether `given` is what a BigLake catalog owes the model, where `settings` stand in the
/// catalog's block. The model's values come before the catalog's.
pub open spec fn biglake_owes(
    given: Outcome,
    model: Model,
    settings: BigqueryView,
    table_format: Seq<char>,
    name: Seq<char>,
) -> bool {
    let adapter = AdapterType::Bigquery;
    let bucket = or_else(model.text("external_volume"@, adapter), settings.external_volume);
    let format = or_else(model.text("file_format"@, adapter), settings.file_format);
    let root = or_else(model.text("base_location_root"@, adapter), settings.base_location_root);
    let about = "Catalog '"@ + name + "' biglake_metastore/bigquery "@;
    if bucket is None {
        refused(given, about + "requires external_volume"@)
    } else if is_blank(bucket->0) {
        refused(given, about + "external_volume cannot be blank"@)
    } else if !"gs://"@.is_prefix_of(bucket->0) {
        refused(given, about + "external_volume must start with gs://"@)
    } else if format is None {
        refused(given, about + "requires file_format"@)
    } else if !same_ignoring_case(format->0, "parquet"@) {
        refused(given, about + "file_format must be parquet"@)
    } else if root is Some && is_blank(root->0) {
        refused(given, "Bigquery v2 base_location_root cannot be blank or whitespace"@)
    } else {
        let relation = given->Ok_0;
        let properties = relation.adapter_properties;
        &&& given is Ok
        &&& stands_in_catalog(relation, adapter, name, "biglake_metastore"@, table_format)
        &&& relation.file_format == Some("parquet"@)
        &&& relation.is_transient is None
        &&& relation.external_volume is None
        &&& relation.base_location is None
        &&& has_property(
            properties,
            "connection_id"@,
            or_else(model.text("connection_id"@, adapter), settings.connection_id),
        )
        &&& has_property(
            properties,
            "storage_uri"@,
            Some(
                if model.text("storage_uri"@, adapter) is Some {
                    model.text("storage_uri"@, adapter)->0
                } else {
                    bucket->0 + "/"@ + directory(model, adapter, root)
                },
            ),
        )
        &&& forall|key: Seq<char>| #[trigger]
            properties.contains_key(key) ==> key == "connection_id"@ || key == "storage_uri"@
    }
}

/// In a BigLake catalog a model gets what the catalog owes it, whatever the catalog's settings.
pub proof fn biglake_gives_what_it_owes(
    model: Model,
    settings: BigqueryView,
    table_format: Seq<char>,
    name: Seq<char>,
)
    ensures
        biglake_owes(
            outcome(
                biglake_values_refusal(model, settings, name),
                biglake_relation(model, settings, table_format, name),
            ),
            model,
            settings,
            table_format,
            name,
        ),
{
    let adapter = AdapterType::Bigquery;
    lemma_base_location(
        or_else(model.text("base_location_root"@, adapter), settings.base_location_root),
        model.text("base_location_subpath"@, adapter),
        model.text("schema"@, adapter),
        model.table_name(adapter),
    );
    reveal_strlit("connection_id");
    assert("connection_id"@.len() == 13);
    reveal_strlit("storage_uri");
    assert("storage_uri"@.len() == 11);
    reveal_strlit("parquet");
    assert(lowercase("parquet"@) =~= "parquet"@);
}

/// Whether `given` is what a Unity catalog owes the model, where `settings` stand in the catalog's
/// block and `volume` is the directory of the table under the location root. The model's values
/// come before the catalog's.
pub open spec fn unity_owes(
    given: Outcome,
    model: Model,
    settings: DatabricksView,
    table_format: Seq<char>,
    name: Seq<char>,
    volume: Option<Seq<char>>,
) -> bool {
    let adapter = AdapterType::Databricks;
    let unreadable = model.flag_refusal("use_uniform"@, adapter);
    let uniform = or_else(model.flag("use_uniform"@, adapter), settings.use_uniform) == Some(true);
    let root = or_else(model.text("location_root"@, adapter), settings.location_root);
    let configured = or_else(model.text("file_format"@, adapter), settings.file_format);
    let format = if configured is Some {
        lowercase(configured->0)
    } else {
        "delta"@
    };
    if unreadable is Some {
        given == Err::<RelationView, ErrorView>(unreadable->0)
    } else if root is Some && is_blank(root->0) {
        refused(given, "Databricks v2 location_root cannot be blank or whitespace"@)
    } else if format == "hudi"@ {
        refused(
            given,
            "Databricks v2 unity does not support file_format 'hudi' (use delta or parquet)"@,
        )
    } else if format == "delta"@ && !uniform {
        refused(
            given,
            "Databricks v2 unity use_uniform: false (or unset) requires file_format: parquet"@,
        )
    } else if format == "parquet"@ && uniform {
        refused(given, "Databricks v2 unity use_uniform: true requires file_format: delta"@)
    } else if format != "delta"@ && format != "parquet"@ {
        refused(given, "file_format '"@ + format + "' is not one of (delta|parquet|hudi)"@)
    } else {
        let relation = given->Ok_0;
        let properties = relation.adapter_properties;
        &&& given is Ok
        &&& stands_in_catalog(relation, adapter, name, "unity"@, table_format)
        &&& relation.file_format == Some(format)
        &&& relation.is_transient is None
        &&& relation.base_location is None
        &&& relation.external_volume == if root is Some {
            volume
        } else {
            None
        }
        &&& has_property(properties, "location_root"@, root)
        &&& has_property(
            properties,
            "use_uniform"@,
            Some(
                if uniform {
                    "true"@
                } else {
                    "false"@
                },
            ),
        )
        &&& forall|key: Seq<char>| #[trigger]
            properties.contains_key(key) ==> key == "location_root"@ || key == "use_uniform"@
    }
}

proof fn lemma_format_words()
    ensures
        lowercase("delta"@) == "delta"@,
        lowercase("parquet"@) == "parquet"@,
        lowercase("hudi"@) == "hudi"@,
        "delta"@.len() == 5,
        "parquet"@.len() == 7,
        "hudi"@.len() == 4,
{
    reveal_strlit("delta");
    reveal_strlit("parquet");
    reveal_strlit("hudi");
    assert(lowercase("delta"@) =~= "delta"@);
    assert(lowercase("parquet"@) =~= "parquet"@);
    assert(lowercase("hudi"@) =~= "hudi"@);
}

/// In a Unity catalog a model gets what the catalog owes it, whatever the catalog's settings.
pub proof fn unity_gives_what_it_owes(
    model: Model,
    settings: DatabricksView,
    table_format: Seq<char>,
    name: Seq<char>,
    volume: Option<Seq<char>>,
)
    ensures
        unity_owes(
            outcome(
                unity_values_refusal(model, settings),
                unity_relation(model, settings, table_format, name, volume),
            ),
            model,
            settings,
            table_format,
            name,
            volume,
        ),
{
    lemma_format_words();
    reveal_strlit("location_root");
    assert("location_root"@.len() == 13);
    reveal_strlit("use_uniform");
    assert("use_uniform"@.len() == 11);
}

/// Whether `given` is what a Hive metastore owes a model with fields that it supports, where
/// `settings` stand in the catalog's block.
pub open spec fn hive_owes(
    given: Outcome,
    model: Model,
    settings: DatabricksView,
    table_format: Seq<char>,
    name: Seq<char>,
) -> bool {
    let adapter = AdapterType::Databricks;
    let configured = or_else(model.text("file_format"@, adapter), settings.file_format);
    let format = if configured is Some {
        lowercase(configured->0)
    } else {
        "delta"@
    };
    if format != "delta"@ && format != "parquet"@ && format != "hudi"@ {
        refused(
            given,
            "Databricks v2 hive_metastore file_format must be one of (delta|parquet|hudi)"@,
        )
    } else {
        let relation = given->Ok_0;
        &&& given is Ok
        &&& stands_in_catalog(relation, adapter, name, "hive_metastore"@, table_format)
        &&& relation.file_format == Some(format)
        &&& relation.is_transient is None
        &&& relation.external_volume is None
        &&& relation.base_location is None
        &&& relation.adapter_properties == Map::<Seq<char>, Seq<char>>::empty()
    }
}

/// In a Hive metastore a model gets what the catalog owes it, whatever the catalog's settings.
pub proof fn hive_gives_what_it_owes(
    model: Model,
    settings: DatabricksView,
    table_format: Seq<char>,
    name: Seq<char>,
)
    ensures
        hive_owes(
            outcome(
                hive_format_refusal(file_format(model, settings)),
                hive_relation(model, settings, table_format, name),
            ),
            model,
            settings,
            table_format,
            name,
        ),
{
    lemma_format_words();
    let format = file_format(model, settings);
    assert(lowercase(format) =~= format);
}

/// Whether `word` is `name` as an identifier of DuckDB: each letter, digit and underscore of ASCII
/// as it is, and an underscore for each other character.
pub open spec fn is_identifier_of(word: Seq<char>, name: Seq<char>) -> bool {
    &&& word.len() == name.len()
    &&& forall|i: int|
        0 <= i < name.len() ==> #[trigger] word[i] == if 'a' <= name[i] <= 'z' || 'A' <= name[i]
            <= 'Z' || '0' <= name[i] <= '9' {
            name[i]
        } else {
            '_'
        }
}

/// A name is made an identifier character by character.
pub proof fn identifiers_are_made_character_by_character(name: Seq<char>)
    ensures
        is_identifier_of(sanitized(name), name),
{
}

/// Whether the property `key` is `name` as an identifier of DuckDB.
pub open spec fn has_identifier(
    properties: Map<Seq<char>, Seq<char>>,
    key: Seq<char>,
    name: Seq<char>,
) -> bool {
    properties.contains_key(key) && is_identifier_of(properties[key], name)
}

/// The name that a database is attached by: the catalog's `attach_as`, else the catalog's own.
pub open spec fn attach_name(settings: DuckdbView, name: Seq<char>) -> Seq<char> {
    if settings.attach_as is Some {
        settings.attach_as->0
    } else {
        name
    }
}

/// Whether `given` is what an attached catalog owes on DuckDB, where `settings` stand in the
/// catalog's block.
pub open spec fn attached_owes(
    given: Outcome,
    settings: DuckdbView,
    kind: Seq<char>,
    table_format: Seq<char>,
    name: Seq<char>,
) -> bool {
    if settings.endpoint is None && settings.endpoint_type is None {
        refused(
            given,
            "Catalog '"@ + name + "' duckdb config requires "@ + "'endpoint' or 'endpoint_type'"@,
        )
    } else {
        let relation = given->Ok_0;
        let properties = relation.adapter_properties;
        &&& given is Ok
        &&& stands_in_catalog(relation, AdapterType::DuckDB, name, kind, table_format)
        &&& relation.file_format is None
        &&& relation.is_transient is None
        &&& relation.external_volume is None
        &&& relation.base_location is None
        &&& has_property(properties, "endpoint"@, settings.endpoint)
        &&& has_property(properties, "endpoint_type"@, settings.endpoint_type)
        &&& has_property(properties, "warehouse"@, settings.warehouse)
        &&& has_property(properties, "secret"@, settings.secret)
        &&& has_identifier(properties, "attached_database"@, attach_name(settings, name))
        &&& forall|key: Seq<char>| #[trigger]
            properties.contains_key(key) ==> key == "endpoint"@ || key == "endpoint_type"@ || key
                == "warehouse"@ || key == "secret"@ || key == "attached_database"@
    }
}

/// In an attached catalog a model gets what the catalog owes, whatever the catalog's settings.
pub proof fn attached_catalogs_give_what_they_owe(
    settings: DuckdbView,
    kind: V2CatalogType,
    table_format: Seq<char>,
    name: Seq<char>,
)
    ensures
        attached_owes(
            outcome(
                attached_values_refusal(settings, name),
                duckdb_relation(kind, table_format, name, None, attached_properties(settings, name)),
            ),
            settings,
            kind.word(),
            table_format,
            name,
        ),
{
    identifiers_are_made_character_by_character(attach_name(settings, name));
    reveal_strlit("endpoint");
    assert("endpoint"@.len() == 8);
    reveal_strlit("endpoint_type");
    assert("endpoint_type"@.len() == 13);
    reveal_strlit("warehouse");
    assert("warehouse"@.len() == 9);
    reveal_strlit("secret");
    assert("secret"@.len() == 6);
    reveal_strlit("attached_database");
    assert("attached_database"@.len() == 17);
}

/// Whether `given` is what a DuckLake catalog owes on DuckDB, where `settings` stand in the
/// catalog's block.
pub open spec fn ducklake_owes(
    given: Outcome,
    settings: DuckdbView,
    kind: Seq<char>,
    table_format: Seq<char>,
    name: Seq<char>,
) -> bool {
    if settings.metadata_path is None {
        refused(given, "Catalog '"@ + name + "' duckdb config requires "@ + "'metadata_path'"@)
    } else {
        let relation = given->Ok_0;
        let properties = relation.adapter_properties;
        &&& given is Ok
        &&& stands_in_catalog(relation, AdapterType::DuckDB, name, kind, table_format)
        &&& relation.file_format is None
        &&& relation.is_transient is None
        &&& relation.external_volume is None
        &&& relation.base_location is None
        &&& has_property(properties, "metadata_path"@, settings.metadata_path)
        &&& has_property(properties, "data_path"@, settings.data_path)
        &&& has_identifier(properties, "catalog_linked_database"@, attach_name(settings, name))
        &&& forall|key: Seq<char>| #[trigger]
            properties.contains_key(key) ==> key == "metadata_path"@ || key == "data_path"@ || key
                == "catalog_linked_database"@
    }
}

/// In a DuckLake catalog a model gets what the catalog owes, whatever the catalog's settings.
pub proof fn ducklake_gives_what_it_owes(
    settings: DuckdbView,
    kind: V2CatalogType,
    table_format: Seq<char>,
    name: Seq<char>,
)
    ensures
        ducklake_owes(
            outcome(
                ducklake_values_refusal(settings, name),
                duckdb_relation(kind, table_format, name, None, ducklake_properties(settings, name)),
            ),
            settings,
            kind.word(),
            table_format,
            name,
        ),
{
    identifiers_are_made_character_by_character(attach_name(settings, name));
    reveal_strlit("metadata_path");
    assert("metadata_path"@.len() == 13);
    reveal_strlit("data_path");
    assert("data_path"@.len() == 9);
    reveal_strlit("catalog_linked_database");
    assert("catalog_linked_database"@.len() == 23);
}

/// Whether `given` is what a catalog of local files owes the model, where `settings` stand in the
/// catalog's block.
pub open spec fn local_files_owe(
    given: Outcome,
    model: Model,
    settings: DuckdbView,
    kind: Seq<char>,
    table_format: Seq<char>,
    name: Seq<char>,
) -> bool {
    let configured = or_else(
        model.text("file_format"@, AdapterType::DuckDB),
        settings.file_format,
    );
    if settings.root_path is None {
        refused(given, "Catalog '"@ + name + "' duckdb config requires "@ + "'root_path'"@)
    } else {
        let relation = given->Ok_0;
        let properties = relation.adapter_properties;
        &&& given is Ok
        &&& stands_in_catalog(relation, AdapterType::DuckDB, name, kind, table_format)
        &&& relation.file_format == Some(
            if configured is Some {
                lowercase(configured->0)
            } else {
                "parquet"@
            },
        )
        &&& relation.is_transient is None
        &&& relation.external_volume is None
        &&& relation.base_location is None
        &&& has_property(properties, "external_root"@, settings.root_path)
        &&& forall|key: Seq<char>| #[trigger]
            properties.contains_key(key) ==> key == "external_root"@
    }
}

/// In a catalog of local files a model gets what the catalog owes it, whatever the catalog's
/// settings.
pub proof fn local_files_give_what_they_owe(
    model: Model,
    settings: DuckdbView,
    kind: V2CatalogType,
    table_format: Seq<char>,
    name: Seq<char>,
)
    ensures
        local_files_owe(
            outcome(
                local_values_refusal(settings, name),
                duckdb_relation(
                    kind,
                    table_format,
                    name,
                    Some(local_file_format(model, settings)),
                    local_properties(settings),
                ),
            ),
            model,
            settings,
            kind.word(),
            table_format,
            name,
        ),
{
    lemma_format_words();
}

/// What is said of a catalog without a block for `platform`.
pub open spec fn lacks_block(name: Seq<char>, platform: Seq<char>) -> Seq<char> {
    "Catalog '"@ + name + "' is missing config."@ + platform
}

/// Whether `given` is what `catalog` owes a Snowflake model as a Horizon catalog, from the first
/// block for Snowflake and from what stands in it.
pub open spec fn horizon_catalog_owes(
    given: Outcome,
    model: Model,
    catalog: CatalogSpecV2View,
    name: Seq<char>,
) -> bool {
    if transient_refusal(model) is Some {
        given == Err::<RelationView, ErrorView>(transient_refusal(model)->0)
    } else if no_block(catalog.config@, "snowflake"@) {
        refused(given, lacks_block(name, "snowflake"@))
    } else {
        forall|i: int, settings: SnowflakeView|
            first_block(catalog.config@, "snowflake"@, i) && #[trigger] stands_for_snowflake(
                catalog.config@[i].block,
                settings,
            ) ==> horizon_owes(given, model, settings, uppercase(catalog.table_format@), name)
    }
}

/// A catalog gives what it owes as a Horizon catalog.
pub proof fn horizon_catalogs_give_what_they_owe(
    model: Model,
    catalog: CatalogSpecV2View,
    name: Seq<char>,
)
    ensures
        horizon_catalog_owes(
            outcome(
                horizon_refusal(model, catalog, name),
                horizon_relation(
                    model,
                    snowflake_settings(catalog.block("snowflake"@)->0),
                    uppercase(catalog.table_format@),
                    name,
                ),
            ),
            model,
            catalog,
            name,
        ),
{
    found_block_is_the_first(catalog, "snowflake"@);
    assert forall|i: int, settings: SnowflakeView|
        first_block(catalog.config@, "snowflake"@, i) && #[trigger] stands_for_snowflake(
            catalog.config@[i].block,
            settings,
        ) implies snowflake_settings(catalog.block("snowflake"@)->0) == settings by {
        snowflake_settings_stand_in_the_block(catalog.config@[i].block, settings);
    }
    horizon_gives_what_it_owes(
        model,
        snowflake_settings(catalog.block("snowflake"@)->0),
        uppercase(catalog.table_format@),
        name,
    );
}

/// Whether `given` is what `catalog` owes a Snowflake model as a linked catalog of the kind `kind`,
/// from the first block for Snowflake and from what stands in it.
pub open spec fn linked_catalog_owes(
    given: Outcome,
    model: Model,
    catalog: CatalogSpecV2View,
    name: Seq<char>,
    kind: Seq<char>,
) -> bool {
    if linked_fields_refusal(model, kind) is Some {
        given == Err::<RelationView, ErrorView>(linked_fields_refusal(model, kind)->0)
    } else if no_block(catalog.config@, "snowflake"@) {
        refused(given, lacks_block(name, "snowflake"@))
    } else {
        forall|i: int, settings: SnowflakeView|
            first_block(catalog.config@, "snowflake"@, i) && #[trigger] stands_for_snowflake(
                catalog.config@[i].block,
                settings,
            ) ==> linked_owes(given, model, settings, uppercase(catalog.table_format@), name, kind)
    }
}

/// A catalog gives what it owes as a linked catalog.
pub proof fn linked_catalog_gives_what_it_owes(
    model: Model,
    catalog: CatalogSpecV2View,
    name: Seq<char>,
    kind: Seq<char>,
)
    ensures
        linked_catalog_owes(
            outcome(
                linked_refusal(model, catalog, name, kind),
                linked_relation(
                    model,
                    snowflake_settings(catalog.block("snowflake"@)->0),
                    uppercase(catalog.table_format@),
                    name,
                ),
            ),
            model,
            catalog,
            name,
            kind,
        ),
{
    found_block_is_the_first(catalog, "snowflake"@);
    assert forall|i: int, settings: SnowflakeView|
        first_block(catalog.config@, "snowflake"@, i) && #[trigger] stands_for_snowflake(
            catalog.config@[i].block,
            settings,
        ) implies snowflake_settings(catalog.block("snowflake"@)->0) == settings by {
        snowflake_settings_stand_in_the_block(catalog.config@[i].block, settings);
    }
    linked_catalogs_give_what_they_owe(
        model,
        snowflake_settings(catalog.block("snowflake"@)->0),
        uppercase(catalog.table_format@),
        name,
        kind,
    );
}

/// Whether `given` is what `catalog` owes a BigQuery model as a BigLake catalog, from the first
/// block for BigQuery and from what stands in it.
pub open spec fn biglake_catalog_owes(
    given: Outcome,
    model: Model,
    catalog: CatalogSpecV2View,
    name: Seq<char>,
) -> bool {
    if no_block(catalog.config@, "bigquery"@) {
        refused(given, lacks_block(name, "bigquery"@))
    } else {
        forall|i: int, settings: BigqueryView|
            first_block(catalog.config@, "bigquery"@, i) && #[trigger] stands_for_bigquery(
                catalog.config@[i].block,
                settings,
            ) ==> biglake_owes(given, model, settings, catalog.table_format@, name)
    }
}

/// A catalog gives what it owes as a BigLake catalog.
pub proof fn biglake_catalogs_give_what_they_owe(
    model: Model,
    catalog: CatalogSpecV2View,
    name: Seq<char>,
)
    ensures
        biglake_catalog_owes(
            outcome(
                biglake_refusal(model, catalog, name),
                biglake_relation(
                    model,
                    bigquery_settings(catalog.block("bigquery"@)->0),
                    catalog.table_format@,
                    name,
                ),
            ),
            model,
            catalog,
            name,
        ),
{
    found_block_is_the_first(catalog, "bigquery"@);
    assert forall|i: int, settings: BigqueryView|
        first_block(catalog.config@, "bigquery"@, i) && #[trigger] stands_for_bigquery(
            catalog.config@[i].block,
            settings,
        ) implies bigquery_settings(catalog.block("bigquery"@)->0) == settings by {
        bigquery_settings_stand_in_the_block(catalog.config@[i].block, settings);
    }
    biglake_gives_what_it_owes(
        model,
        bigquery_settings(catalog.block("bigquery"@)->0),
        catalog.table_format@,
        name,
    );
}

/// Whether `given` is what `catalog` owes a Databricks model as a Unity catalog, from the first
/// block for Databricks and from what stands in it.
pub open spec fn unity_catalog_owes(
    given: Outcome,
    model: Model,
    catalog: CatalogSpecV2View,
    name: Seq<char>,
    volume: Option<Seq<char>>,
) -> bool {
    if no_block(catalog.config@, "databricks"@) {
        refused(given, lacks_block(name, "databricks"@))
    } else {
        forall|i: int, settings: DatabricksView|
            first_block(catalog.config@, "databricks"@, i) && #[trigger] stands_for_databricks(
                catalog.config@[i].block,
                settings,
            ) ==> unity_owes(given, model, settings, catalog.table_format@, name, volume)
    }
}

/// A catalog gives what it owes as a Unity catalog.
pub proof fn unity_catalogs_give_what_they_owe(
    model: Model,
    catalog: CatalogSpecV2View,
    name: Seq<char>,
    volume: Option<Seq<char>>,
)
    ensures
        unity_catalog_owes(
            outcome(
                unity_refusal(model, catalog, name),
                unity_relation(
                    model,
                    databricks_settings(catalog.block("databricks"@)->0),
                    catalog.table_format@,
                    name,
                    volume,
                ),
            ),
            model,
            catalog,
            name,
            volume,
        ),
{
    lemma_databricks_block(catalog);
    unity_gives_what_it_owes(
        model,
        databricks_settings(catalog.block("databricks"@)->0),
        catalog.table_format@,
        name,
        volume,
    );
}

proof fn lemma_databricks_block(catalog: CatalogSpecV2View)
    ensures
        no_block(catalog.config@, "databricks"@) <==> catalog.block("databricks"@) is None,
        forall|i: int, settings: DatabricksView|
            first_block(catalog.config@, "databricks"@, i) && #[trigger] stands_for_databricks(
                catalog.config@[i].block,
                settings,
            ) ==> databricks_settings(catalog.block("databricks"@)->0) == settings,
{
    found_block_is_the_first(catalog, "databricks"@);
    assert forall|i: int, settings: DatabricksView|
        first_block(catalog.config@, "databricks"@, i) && #[trigger] stands_for_databricks(
            catalog.config@[i].block,
            settings,
        ) implies databricks_settings(catalog.block("databricks"@)->0) == settings by {
        databricks_settings_stand_in_the_block(catalog.config@[i].block, settings);
    }
}

/// Whether `given` is what `catalog` owes a Databricks model as a Hive metastore, from the first
/// block for Databricks and from what stands in it.
pub open spec fn hive_catalog_owes(
    given: Outcome,
    model: Model,
    catalog: CatalogSpecV2View,
    name: Seq<char>,
) -> bool {
    let adapter = AdapterType::Databricks;
    if model.has("location_root"@, adapter) || model.has("use_uniform"@, adapter) {
        refused(
            given,
            "Databricks v2 hive_metastore does not support model field '"@ + (if model.has(
                "location_root"@,
                adapter,
            ) {
                "location_root"@
            } else {
                "use_uniform"@
            }) + "'."@,
        )
    } else if no_block(catalog.config@, "databricks"@) {
        refused(given, lacks_block(name, "databricks"@))
    } else {
        forall|i: int, settings: DatabricksView|
            first_block(catalog.config@, "databricks"@, i) && #[trigger] stands_for_databricks(
                catalog.config@[i].block,
                settings,
            ) ==> hive_owes(given, model, settings, catalog.table_format@, name)
    }
}

/// A catalog gives what it owes as a Hive metastore.
pub proof fn hive_catalogs_give_what_they_owe(
    model: Model,
    catalog: CatalogSpecV2View,
    name: Seq<char>,
)
    ensures
        hive_catalog_owes(
            outcome(
                hive_refusal(model, catalog, name),
                hive_relation(
                    model,
                    databricks_settings(catalog.block("databricks"@)->0),
                    catalog.table_format@,
                    name,
                ),
            ),
            model,
            catalog,
            name,
        ),
{
    lemma_databricks_block(catalog);
    hive_refuses_two_fields(model);
    hive_gives_what_it_owes(
        model,
        databricks_settings(catalog.block("databricks"@)->0),
        catalog.table_format@,
        name,
    );
}

proof fn lemma_duckdb_block(catalog: CatalogSpecV2View)
    ensures
        no_block(catalog.config@, "duckdb"@) <==> catalog.block("duckdb"@) is None,
        forall|i: int, settings: DuckdbView|
            first_block(catalog.config@, "duckdb"@, i) && #[trigger] stands_for_duckdb(
                catalog.config@[i].block,
                settings,
            ) ==> duckdb_settings(catalog.block("duckdb"@)->0) == settings,
{
    found_block_is_the_first(catalog, "duckdb"@);
    assert forall|i: int, settings: DuckdbView|
        first_block(catalog.config@, "duckdb"@, i) && #[trigger] stands_for_duckdb(
            catalog.config@[i].block,
            settings,
        ) implies duckdb_settings(catalog.block("duckdb"@)->0) == settings by {
        duckdb_settings_stand_in_the_block(catalog.config@[i].block, settings);
    }
}

/// Whether `given` is what `catalog` owes a DuckDB model as an attached catalog, from the first
/// block for DuckDB and from what stands in it.
pub open spec fn attached_catalog_owes(
    given: Outcome,
    catalog: CatalogSpecV2View,
    name: Seq<char>,
) -> bool {
    if no_block(catalog.config@, "duckdb"@) {
        refused(given, lacks_block(name, "duckdb"@))
    } else {
        forall|i: int, settings: DuckdbView|
            first_block(catalog.config@, "duckdb"@, i) && #[trigger] stands_for_duckdb(
                catalog.config@[i].block,
                settings,
            ) ==> attached_owes(
                given,
                settings,
                catalog.catalog_type.word(),
                uppercase(catalog.table_format@),
                name,
            )
    }
}

/// Whether `given` is what `catalog` owes a DuckDB model as a DuckLake catalog, from the first
/// block for DuckDB and from what stands in it.
pub open spec fn ducklake_catalog_owes(
    given: Outcome,
    catalog: CatalogSpecV2View,
    name: Seq<char>,
) -> bool {
    if no_block(catalog.config@, "duckdb"@) {
        refused(given, lacks_block(name, "duckdb"@))
    } else {
        forall|i: int, settings: DuckdbView|
            first_block(catalog.config@, "duckdb"@, i) && #[trigger] stands_for_duckdb(
                catalog.config@[i].block,
                settings,
            ) ==> ducklake_owes(
                given,
                settings,
                catalog.catalog_type.word(),
                uppercase(catalog.table_format@),
                name,
            )
    }
}

/// Whether `given` is what `catalog` owes a DuckDB model as a catalog of local files, from the
/// first block for DuckDB and from what stands in it.
pub open spec fn local_catalog_owes(
    given: Outcome,
    model: Model,
    catalog: CatalogSpecV2View,
    name: Seq<char>,
) -> bool {
    if no_block(catalog.config@, "duckdb"@) {
        refused(given, lacks_block(name, "duckdb"@))
    } else {
        forall|i: int, settings: DuckdbView|
            first_block(catalog.config@, "duckdb"@, i) && #[trigger] stands_for_duckdb(
                catalog.config@[i].block,
                settings,
            ) ==> local_files_owe(
                given,
                model,
                settings,
                catalog.catalog_type.word(),
                uppercase(catalog.table_format@),
                name,
            )
    }
}

/// A catalog gives what it owes as an attached catalog, as DuckLake and as local files.
pub proof fn duckdb_catalogs_give_what_they_owe(
    model: Model,
    catalog: CatalogSpecV2View,
    name: Seq<char>,
)
    ensures
        ({
            let kind = catalog.catalog_type;
            let format = uppercase(catalog.table_format@);
            let settings = duckdb_settings(catalog.block("duckdb"@)->0);
            &&& attached_catalog_owes(
                outcome(
                    attached_refusal(catalog, name),
                    duckdb_relation(kind, format, name, None, attached_properties(settings, name)),
                ),
                catalog,
                name,
            )
            &&& ducklake_catalog_owes(
                outcome(
                    ducklake_refusal(catalog, name),
                    duckdb_relation(kind, format, name, None, ducklake_properties(settings, name)),
                ),
                catalog,
                name,
            )
            &&& local_catalog_owes(
                outcome(
                    local_refusal(catalog, name),
                    duckdb_relation(
                        kind,
                        format,
                        name,
                        Some(local_file_format(model, settings)),
                        local_properties(settings),
                    ),
                ),
                model,
                catalog,
                name,
            )
        }),
{
    let kind = catalog.catalog_type;
    let format = uppercase(catalog.table_format@);
    let settings = duckdb_settings(catalog.block("duckdb"@)->0);
    lemma_duckdb_block(catalog);
    attached_catalogs_give_what_they_owe(settings, kind, format, name);
    ducklake_gives_what_it_owes(settings, kind, format, name);
    local_files_give_what_they_owe(model, settings, kind, format, name);
}

/// What is said of a catalog of a kind that the adapter does not support.
pub open spec fn not_supported(name: Seq<char>, kind: Seq<char>, supported: Seq<char>) -> Seq<char> {
    "Catalog '"@ + name + "' has type '"@ + kind + "'; "@ + supported
}

/// Whether `given` is what `catalog` owes a model of the adapter. The kind of the catalog decides
/// how the relation is made, and a kind that the adapter does not support is an error.
pub open spec fn catalog_owes(
    given: Outcome,
    adapter_type: AdapterType,
    model: Model,
    catalog: CatalogSpecV2View,
    name: Seq<char>,
    volume: Option<Seq<char>>,
) -> bool {
    let kind = catalog.catalog_type;
    match adapter_type {
        AdapterType::Databricks => match kind {
            V2CatalogType::Unity => unity_catalog_owes(given, model, catalog, name, volume),
            V2CatalogType::HiveMetastore => hive_catalog_owes(given, model, catalog, name),
            _ => refused(
                given,
                not_supported(
                    name,
                    kind.word(),
                    "Databricks v2 mapping supports only 'unity' and 'hive_metastore'"@,
                ),
            ),
        },
        AdapterType::Snowflake => match kind {
            V2CatalogType::Horizon => horizon_catalog_owes(given, model, catalog, name),
            V2CatalogType::Glue => linked_catalog_owes(given, model, catalog, name, "glue"@),
            V2CatalogType::IcebergRest => linked_catalog_owes(
                given,
                model,
                catalog,
                name,
                "iceberg_rest"@,
            ),
            V2CatalogType::Unity => linked_catalog_owes(given, model, catalog, name, "unity"@),
            _ => refused(
                given,
                not_supported(
                    name,
                    kind.word(),
                    "Snowflake v2 mapping supports only 'horizon', 'glue', 'iceberg_rest', and 'unity'"@,
                ),
            ),
        },
        AdapterType::Bigquery => match kind {
            V2CatalogType::BiglakeMetastore => biglake_catalog_owes(given, model, catalog, name),
            _ => refused(
                given,
                not_supported(
                    name,
                    kind.word(),
                    "Bigquery v2 mapping supports only 'biglake_metastore'"@,
                ),
            ),
        },
        AdapterType::DuckDB => match kind {
            V2CatalogType::Glue => attached_catalog_owes(given, catalog, name),
            V2CatalogType::IcebergRest => attached_catalog_owes(given, catalog, name),
            V2CatalogType::DuckLake => ducklake_catalog_owes(given, catalog, name),
            V2CatalogType::LocalFilesystem => local_catalog_owes(given, model, catalog, name),
            _ => refused(
                given,
                not_supported(
                    name,
                    kind.word(),
                    "DuckDB v2 mapping supports only 'glue', 'iceberg_rest', 'ducklake', and 'local_filesystem'"@,
                ),
            ),
        },
        AdapterType::Other(adapter_name) => {
            &&& given is Err
            &&& given->Err_0.kind == AdapterErrorKind::Internal
            &&& given->Err_0.message == "build_relation_catalog cannot be invoked by an adapter "@
                + adapter_name@
        },
    }
}

/// Every catalog gives every model what it owes it.
pub proof fn catalogs_give_what_they_owe(
    adapter_type: AdapterType,
    model: Model,
    catalog: CatalogSpecV2View,
    name: Seq<char>,
    volume: Option<Seq<char>>,
)
    ensures
        catalog_owes(
            catalog_outcome(adapter_type, model, catalog, name, volume),
            adapter_type,
            model,
            catalog,
            name,
            volume,
        ),
{
    match adapter_type {
        AdapterType::Databricks => {
            unity_catalogs_give_what_they_owe(model, catalog, name, volume);
            hive_catalogs_give_what_they_owe(model, catalog, name);
        },
        AdapterType::Snowflake => {
            horizon_catalogs_give_what_they_owe(model, catalog, name);
            linked_catalog_gives_what_it_owes(model, catalog, name, catalog.catalog_type.word());
        },
        AdapterType::Bigquery => biglake_catalogs_give_what_they_owe(model, catalog, name),
        AdapterType::DuckDB => duckdb_catalogs_give_what_they_owe(model, catalog, name),
        AdapterType::Other(_) => {},
    }
}

/// A model that selects a catalog gets what that catalog, the first of its name, owes it.
pub proof fn models_get_what_their_catalog_owes(
    adapter_type: AdapterType,
    model: Model,
    catalogs: Result<DbtCatalogsV2View, String>,
    context: ProjectContext,
    name: Seq<char>,
    i: int,
)
    requires
        selects(adapter_type, model, catalogs, name, i),
    ensures
        catalog_owes(
            v2_outcome(adapter_type, model, catalogs, context),
            adapter_type,
            model,
            catalogs->Ok_0.catalogs@[i],
            name,
            text_of(context.external_volume),
        ),
{
    let catalog = catalogs->Ok_0.catalogs@[i];
    the_first_catalog_of_a_name_is_found(catalogs->Ok_0.catalogs@, name, i);
    catalogs_give_what_they_owe(
        adapter_type,
        model,
        catalog,
        name,
        text_of(context.external_volume),
    );
}

/// Whether `block` is the block of the selected catalog for `platform`.
pub open spec fn uses_block(
    adapter_type: AdapterType,
    model: Model,
    catalogs: Result<DbtCatalogsV2View, String>,
    kind: V2CatalogType,
    platform: Seq<char>,
    block: Mapping,
) -> bool {
    exists|name: Seq<char>, i: int, j: int|
        {
            &&& #[trigger] selects(adapter_type, model, catalogs, name, i)
            &&& catalogs->Ok_0.catalogs@[i].catalog_type == kind
            &&& #[trigger] first_block(catalogs->Ok_0.catalogs@[i].config@, platform, j)
            &&& catalogs->Ok_0.catalogs@[i].config@[j].block == block
        }
}

/// The text that `block` holds under `key`, without the white space at its ends.
pub open spec fn held_text(block: Mapping, key: Seq<char>) -> Option<Seq<char>> {
    if mapping_entries(block).contains_key(key) && mapping_entries(block)[key].text is Some {
        Some(trimmed(mapping_entries(block)[key].text->0))
    } else {
        None
    }
}

/// The base location of every Horizon relation is the root, the model's, else the one that stands
/// in the block, else `_dbt`, and in it the directory of the model's schema, table and subpath.
pub proof fn horizon_tables_have_their_directory(
    model: Model,
    catalogs: Result<DbtCatalogsV2View, String>,
    context: ProjectContext,
    block: Mapping,
)
    requires
        uses_block(
            AdapterType::Snowflake,
            model,
            catalogs,
            V2CatalogType::Horizon,
            "snowflake"@,
            block,
        ),
        v2_outcome(AdapterType::Snowflake, model, catalogs, context) is Ok,
    ensures
        ({
            let adapter = AdapterType::Snowflake;
            let relation = v2_outcome(adapter, model, catalogs, context)->Ok_0;
            let asked = model.text("base_location_root"@, adapter);
            relation.base_location == Some(
                directory(
                    model,
                    adapter,
                    if asked is Some {
                        asked
                    } else {
                        held_text(block, "base_location_root"@)
                    },
                ),
            )
        }),
{
    let adapter = AdapterType::Snowflake;
    let (name, i, j) = choose|name: Seq<char>, i: int, j: int|
        {
            &&& #[trigger] selects(adapter, model, catalogs, name, i)
            &&& catalogs->Ok_0.catalogs@[i].catalog_type == V2CatalogType::Horizon
            &&& #[trigger] first_block(catalogs->Ok_0.catalogs@[i].config@, "snowflake"@, j)
            &&& catalogs->Ok_0.catalogs@[i].config@[j].block == block
        };
    models_get_what_their_catalog_owes(adapter, model, catalogs, context, name, i);
    snowflake_settings_stand_in_the_block(block, snowflake_settings(block));
    assert(!no_block(catalogs->Ok_0.catalogs@[i].config@, "snowflake"@)) by {
        assert(catalogs->Ok_0.catalogs@[i].config@[j].platform@ == "snowflake"@);
    }
}

/// Two models that differ in their schema alone, or in their table's name alone, have Horizon
/// relations in different directories.
pub proof fn horizon_tables_lie_apart(
    a: Model,
    b: Model,
    catalogs: Result<DbtCatalogsV2View, String>,
    context: ProjectContext,
    block: Mapping,
)
    requires
        uses_block(AdapterType::Snowflake, a, catalogs, V2CatalogType::Horizon, "snowflake"@, block),
        uses_block(AdapterType::Snowflake, b, catalogs, V2CatalogType::Horizon, "snowflake"@, block),
        v2_outcome(AdapterType::Snowflake, a, catalogs, context) is Ok,
        v2_outcome(AdapterType::Snowflake, b, catalogs, context) is Ok,
        differ_in_schema_or_name_alone(a, b, AdapterType::Snowflake),
    ensures
        v2_outcome(AdapterType::Snowflake, a, catalogs, context)->Ok_0.base_location != v2_outcome(
            AdapterType::Snowflake,
            b,
            catalogs,
            context,
        )->Ok_0.base_location,
{
    let adapter = AdapterType::Snowflake;
    horizon_tables_have_their_directory(a, catalogs, context, block);
    horizon_tables_have_their_directory(b, catalogs, context, block);
    let asked = a.text("base_location_root"@, adapter);
    let root = if asked is Some {
        asked
    } else {
        held_text(block, "base_location_root"@)
    };
    lemma_directories_lie_apart(a, b, adapter, root);
}

/// Whether the two models' tables are to be stored alike but for the schema, or but for the name.
pub open spec fn differ_in_schema_or_name_alone(
    a: Model,
    b: Model,
    adapter_type: AdapterType,
) -> bool {
    let said = |model: Model, key: Seq<char>| model.text(key, adapter_type);
    let name = |model: Model|
        if said(model, "alias"@) is Some {
            said(model, "alias"@)
        } else {
            said(model, "identifier"@)
        };
    &&& said(a, "base_location_root"@) == said(b, "base_location_root"@)
    &&& said(a, "base_location_subpath"@) == said(b, "base_location_subpath"@)
    &&& {
        ||| said(a, "schema"@) != said(b, "schema"@) && name(a) == name(b)
        ||| said(a, "schema"@) == said(b, "schema"@) && name(a) != name(b)
    }
}

proof fn lemma_directories_lie_apart(
    a: Model,
    b: Model,
    adapter_type: AdapterType,
    root: Option<Seq<char>>,
)
    requires
        differ_in_schema_or_name_alone(a, b, adapter_type),
    ensures
        directory(a, adapter_type, root) != directory(b, adapter_type, root),
{
    let subpath = a.text("base_location_subpath"@, adapter_type);
    let schema = a.text("schema"@, adapter_type);
    let name = a.table_name(adapter_type);
    base_locations_are_made_of_their_parts(
        root,
        subpath,
        schema,
        name,
        b.text("schema"@, adapter_type),
    );
    base_locations_are_made_of_their_parts(root, subpath, schema, name, b.table_name(adapter_type));
    lemma_base_location(
        root,
        b.text("base_location_subpath"@, adapter_type),
        b.text("schema"@, adapter_type),
        b.table_name(adapter_type),
    );
}

/// Where the model gives no `storage_uri`, every BigLake relation is stored in its bucket, under
/// the root, the model's, else the one that stands in the block, else `_dbt`, in the directory of
/// the model's schema, table and subpath.
pub proof fn biglake_tables_have_their_directory(
    model: Model,
    catalogs: Result<DbtCatalogsV2View, String>,
    context: ProjectContext,
    block: Mapping,
)
    requires
        uses_block(
            AdapterType::Bigquery,
            model,
            catalogs,
            V2CatalogType::BiglakeMetastore,
            "bigquery"@,
            block,
        ),
        v2_outcome(AdapterType::Bigquery, model, catalogs, context) is Ok,
    ensures
        ({
            let adapter = AdapterType::Bigquery;
            let properties = v2_outcome(
                adapter,
                model,
                catalogs,
                context,
            )->Ok_0.adapter_properties;
            let asked = |key: Seq<char>|
                if model.text(key, adapter) is Some {
                    model.text(key, adapter)
                } else {
                    held_text(block, key)
                };
            &&& asked("external_volume"@) is Some
            &&& properties.contains_key("storage_uri"@)
            &&& model.text("storage_uri"@, adapter) matches Some(uri) ==> properties["storage_uri"@]
                == uri
            &&& model.text("storage_uri"@, adapter) is None ==> properties["storage_uri"@] == asked(
                "external_volume"@,
            )->0 + "/"@ + directory(model, adapter, asked("base_location_root"@))
            &&& has_property(properties, "connection_id"@, asked("connection_id"@))
        }),
{
    let adapter = AdapterType::Bigquery;
    let (name, i, j) = choose|name: Seq<char>, i: int, j: int|
        {
            &&& #[trigger] selects(adapter, model, catalogs, name, i)
            &&& catalogs->Ok_0.catalogs@[i].catalog_type == V2CatalogType::BiglakeMetastore
            &&& #[trigger] first_block(catalogs->Ok_0.catalogs@[i].config@, "bigquery"@, j)
            &&& catalogs->Ok_0.catalogs@[i].config@[j].block == block
        };
    models_get_what_their_catalog_owes(adapter, model, catalogs, context, name, i);
    bigquery_settings_stand_in_the_block(block, bigquery_settings(block));
    assert(!no_block(catalogs->Ok_0.catalogs@[i].config@, "bigquery"@)) by {
        assert(catalogs->Ok_0.catalogs@[i].config@[j].platform@ == "bigquery"@);
    }
}

/// Two models without a `storage_uri` that differ in their schema alone, or in their table's name
/// alone, have BigLake relations in different places.
pub proof fn biglake_tables_lie_apart(
    a: Model,
    b: Model,
    catalogs: Result<DbtCatalogsV2View, String>,
    context: ProjectContext,
    block: Mapping,
)
    requires
        uses_block(
            AdapterType::Bigquery,
            a,
            catalogs,
            V2CatalogType::BiglakeMetastore,
            "bigquery"@,
            block,
        ),
        uses_block(
            AdapterType::Bigquery,
            b,
            catalogs,
            V2CatalogType::BiglakeMetastore,
            "bigquery"@,
            block,
        ),
        v2_outcome(AdapterType::Bigquery, a, catalogs, context) is Ok,
        v2_outcome(AdapterType::Bigquery, b, catalogs, context) is Ok,
        a.text("storage_uri"@, AdapterType::Bigquery) is None,
        b.text("storage_uri"@, AdapterType::Bigquery) is None,
        a.text("external_volume"@, AdapterType::Bigquery) == b.text(
            "external_volume"@,
            AdapterType::Bigquery,
        ),
        differ_in_schema_or_name_alone(a, b, AdapterType::Bigquery),
    ensures
        v2_outcome(AdapterType::Bigquery, a, catalogs, context)->Ok_0.adapter_properties["storage_uri"@]
            != v2_outcome(
            AdapterType::Bigquery,
            b,
            catalogs,
            context,
        )->Ok_0.adapter_properties["storage_uri"@],
{
    let adapter = AdapterType::Bigquery;
    biglake_tables_have_their_directory(a, catalogs, context, block);
    biglake_tables_have_their_directory(b, catalogs, context, block);
    let asked = a.text("base_location_root"@, adapter);
    let root = if asked is Some {
        asked
    } else {
        held_text(block, "base_location_root"@)
    };
    lemma_directories_lie_apart(a, b, adapter, root);
    let volume = a.text("external_volume"@, adapter);
    let front = (if volume is Some {
        volume->0
    } else {
        held_text(block, "external_volume"@)->0
    }) + "/"@;
    let (x, y) = (directory(a, adapter, root), directory(b, adapter, root));
    if front + x == front + y {
        assert(x =~= (front + x).skip(front.len() as int));
        assert(y =~= (front + y).skip(front.len() as int));
    }
}

/// The location root of every Unity relation is the model's, else the text that the catalog's block
/// holds under `location_root`, whatever the block's other keys. With it the relation has the
/// project's external volume, and without one it has none.
pub proof fn unity_tables_have_their_location_root(
    model: Model,
    catalogs: Result<DbtCatalogsV2View, String>,
    context: ProjectContext,
    block: Mapping,
)
    requires
        uses_block(
            AdapterType::Databricks,
            model,
            catalogs,
            V2CatalogType::Unity,
            "databricks"@,
            block,
        ),
        v2_outcome(AdapterType::Databricks, model, catalogs, context) is Ok,
    ensures
        ({
            let adapter = AdapterType::Databricks;
            let relation = v2_outcome(adapter, model, catalogs, context)->Ok_0;
            let asked = model.text("location_root"@, adapter);
            let root = if asked is Some {
                asked
            } else {
                held_text(block, "location_root"@)
            };
            &&& has_property(relation.adapter_properties, "location_root"@, root)
            &&& root is Some ==> relation.external_volume == text_of(context.external_volume)
            &&& root is None ==> relation.external_volume is None
        }),
{
    let adapter = AdapterType::Databricks;
    let (name, i, j) = choose|name: Seq<char>, i: int, j: int|
        {
            &&& #[trigger] selects(adapter, model, catalogs, name, i)
            &&& catalogs->Ok_0.catalogs@[i].catalog_type == V2CatalogType::Unity
            &&& #[trigger] first_block(catalogs->Ok_0.catalogs@[i].config@, "databricks"@, j)
            &&& catalogs->Ok_0.catalogs@[i].config@[j].block == block
        };
    models_get_what_their_catalog_owes(adapter, model, catalogs, context, name, i);
    databricks_settings_stand_in_the_block(block, databricks_settings(block));
    assert(!no_block(catalogs->Ok_0.catalogs@[i].config@, "databricks"@)) by {
        assert(catalogs->Ok_0.catalogs@[i].config@[j].platform@ == "databricks"@);
    }
}

/// Every relation in an attached catalog has each of the properties `endpoint`, `endpoint_type`,
/// `warehouse` and `secret` exactly where the catalog's block holds a text under that key, and its
/// value is that text, without the white space at its ends.
pub proof fn attached_properties_stand_in_the_block(
    model: Model,
    catalogs: Result<DbtCatalogsV2View, String>,
    context: ProjectContext,
    kind: V2CatalogType,
    block: Mapping,
)
    requires
        kind == V2CatalogType::Glue || kind == V2CatalogType::IcebergRest,
        uses_block(AdapterType::DuckDB, model, catalogs, kind, "duckdb"@, block),
        v2_outcome(AdapterType::DuckDB, model, catalogs, context) is Ok,
    ensures
        ({
            let properties = v2_outcome(
                AdapterType::DuckDB,
                model,
                catalogs,
                context,
            )->Ok_0.adapter_properties;
            &&& has_property(properties, "endpoint"@, held_text(block, "endpoint"@))
            &&& has_property(properties, "endpoint_type"@, held_text(block, "endpoint_type"@))
            &&& has_property(properties, "warehouse"@, held_text(block, "warehouse"@))
            &&& has_property(properties, "secret"@, held_text(block, "secret"@))
        }),
{
    let adapter = AdapterType::DuckDB;
    let (name, i, j) = choose|name: Seq<char>, i: int, j: int|
        {
            &&& #[trigger] selects(adapter, model, catalogs, name, i)
            &&& catalogs->Ok_0.catalogs@[i].catalog_type == kind
            &&& #[trigger] first_block(catalogs->Ok_0.catalogs@[i].config@, "duckdb"@, j)
            &&& catalogs->Ok_0.catalogs@[i].config@[j].block == block
        };
    models_get_what_their_catalog_owes(adapter, model, catalogs, context, name, i);
    duckdb_settings_stand_in_the_block(block, duckdb_settings(block));
    assert(!no_block(catalogs->Ok_0.catalogs@[i].config@, "duckdb"@)) by {
        assert(catalogs->Ok_0.catalogs@[i].config@[j].platform@ == "duckdb"@);
    }
}

/// The project is asked for a table's directory exactly where a Databricks model selects a Unity
/// catalog with a block for Databricks, its `use_uniform` can be read, and there is a location root,
/// the model's or else the one that stands in the block, that is not blank. That root is asked
/// about.
pub proof fn the_location_root_is_asked_about(
    model: Model,
    catalogs: Result<DbtCatalogsV2View, String>,
    root: Seq<char>,
)
    ensures
        asked_location_root(model, catalogs) == Some(root) <==> exists|block: Mapping|
            {
                let asked = model.text("location_root"@, AdapterType::Databricks);
                &&& #[trigger] uses_block(
                    AdapterType::Databricks,
                    model,
                    catalogs,
                    V2CatalogType::Unity,
                    "databricks"@,
                    block,
                )
                &&& model.flag_refusal("use_uniform"@, AdapterType::Databricks) is None
                &&& !is_blank(root)
                &&& Some(root) == if asked is Some {
                    asked
                } else {
                    held_text(block, "location_root"@)
                }
            },
{
    let adapter = AdapterType::Databricks;
    let asked = model.text("location_root"@, adapter);
    assert forall|block: Mapping| #[trigger]
        uses_block(adapter, model, catalogs, V2CatalogType::Unity, "databricks"@, block) && model.flag_refusal(
            "use_uniform"@,
            adapter,
        ) is None && !is_blank(root) && Some(root) == (if asked is Some {
            asked
        } else {
            held_text(block, "location_root"@)
        }) implies asked_location_root(model, catalogs) == Some(root) by {
        let (name, i, j) = choose|name: Seq<char>, i: int, j: int|
            {
                &&& #[trigger] selects(adapter, model, catalogs, name, i)
                &&& catalogs->Ok_0.catalogs@[i].catalog_type == V2CatalogType::Unity
                &&& #[trigger] first_block(catalogs->Ok_0.catalogs@[i].config@, "databricks"@, j)
                &&& catalogs->Ok_0.catalogs@[i].config@[j].block == block
            };
        the_first_catalog_of_a_name_is_found(catalogs->Ok_0.catalogs@, name, i);
        found_block_is_the_first(catalogs->Ok_0.catalogs@[i], "databricks"@);
    }
    if asked_location_root(model, catalogs) == Some(root) {
        let name = model.selected_catalog(adapter)->0;
        let all = catalogs->Ok_0.catalogs@;
        found_catalog_is_the_first(all, name);
        let catalog = find_catalog(all, name)->0;
        let i = choose|i: int|
            0 <= i < all.len() && #[trigger] all[i] == catalog && catalog.name@ == name && forall|
                j: int,
            |
                0 <= j < i ==> (#[trigger] all[j]).name@ != name;
        assert(selects(adapter, model, catalogs, name, i));
        found_block_is_the_first(catalog, "databricks"@);
        let block = catalog.block("databricks"@)->0;
        let j = choose|j: int|
            0 <= j < catalog.config@.len() && (#[trigger] catalog.config@[j]).platform@
                == "databricks"@ && catalog.config@[j].block == block && forall|k: int|
                0 <= k < j ==> (#[trigger] catalog.config@[k]).platform@ != "databricks"@;
        assert(first_block(all[i].config@, "databricks"@, j));
        assert(uses_block(adapter, model, catalogs, V2CatalogType::Unity, "databricks"@, block));
    }
}

} // verus!
