//! What configurations and options answer, told of the fields that callers see.

use crate::config::ListingTableConfig;
use crate::error::DataFusionError;
use crate::format::FileFormat;
use crate::options::{ListingOptions, SchemaAction, SchemaEvent};
use crate::path::{
    partition_cols_of, suffix_of_a_name_with_extension, suffix_of_a_name_without_dot,
};
use arrow::datatypes::SchemaRef;
use std::sync::Arc;
use vstd::prelude::*;

verus! {

/// The same texts in the same order.
pub open spec fn same_texts(left: Seq<String>, right: Seq<String>) -> bool {
    &&& left.len() == right.len()
    &&& forall|i: int| 0 <= i < left.len() ==> (#[trigger] left[i])@ == right[i]@
}

/// Options that agree in every field.
pub open spec fn same_options<F: ?Sized>(left: ListingOptions<F>, right: ListingOptions<F>) -> bool {
    &&& left.file_extension@ == right.file_extension@
    &&& left.format == right.format
    &&& same_texts(left.table_partition_cols@, right.table_partition_cols@)
    &&& left.collect_stat == right.collect_stat
    &&& left.target_partitions == right.target_partitions
}

/// Options that are given in both places and agree in every field, or in neither.
pub open spec fn same_optional_options<F: ?Sized>(
    left: Option<ListingOptions<F>>,
    right: Option<ListingOptions<F>>,
) -> bool {
    match (left, right) {
        (Some(l), Some(r)) => same_options(l, r),
        (None, None) => true,
        _ => false,
    }
}

/// Options say the same if and only if they agree in every field.
pub proof fn options_are_their_fields<F: ?Sized>(left: ListingOptions<F>, right: ListingOptions<F>)
    ensures
        left@ == right@ <==> same_options(left, right),
{
    if left@ == right@ {
        assert(left@.table_partition_cols.len() == right@.table_partition_cols.len());
        assert forall|i: int| 0 <= i < left.table_partition_cols@.len() implies (
        #[trigger] left.table_partition_cols@[i])@ == right.table_partition_cols@[i]@ by {
            assert(left@.table_partition_cols[i] == right@.table_partition_cols[i]);
        }
    }
    if same_options(left, right) {
        assert(left@.table_partition_cols =~= right@.table_partition_cols);
    }
}

/// What options say is what their fields hold.
pub proof fn options_say_what_they_hold<F: ?Sized>(options: ListingOptions<F>)
    ensures
        options@.file_extension == options.file_extension@,
        options@.format == options.format,
        options@.table_partition_cols.len() == options.table_partition_cols@.len(),
        forall|i: int|
            0 <= i < options.table_partition_cols@.len()
                ==> #[trigger] options@.table_partition_cols[i]
                == options.table_partition_cols@[i]@,
        options@.collect_stat == options.collect_stat,
        options@.target_partitions == options.target_partitions,
{
}

/// What a configuration says is what its fields hold.
pub proof fn configurations_say_what_they_hold<S: ?Sized, F: ?Sized>(
    config: ListingTableConfig<S, F>,
)
    ensures
        config@.object_store == config.object_store,
        config@.table_path == config.table_path@,
        config@.file_schema == config.file_schema,
        config@.options == match config.options {
            Some(options) => Some(options@),
            None => None,
        },
{
}

/// Default options keep all files, expect no partition column, collect no statistics and want one
/// partition; the format is the one that is given.
pub proof fn default_options_ask_for_little<F: ?Sized>(
    format: FileFormat<F>,
    options: ListingOptions<F>,
)
    requires
        call_ensures(ListingOptions::<F>::new, (format,), options),
    ensures
        options.file_extension@.len() == 0,
        options.format == format,
        options.table_partition_cols@.len() == 0,
        !options.collect_stat,
        options.target_partitions == 1,
{
    assert(options@.table_partition_cols.len() == options.table_partition_cols@.len());
}

/// A clone of options agrees with them in every field.
pub proof fn cloned_options_agree<F: ?Sized>(options: ListingOptions<F>, copy: ListingOptions<F>)
    requires
        call_ensures(ListingOptions::<F>::clone, (&options,), copy),
    ensures
        same_options(options, copy),
{
    options_are_their_fields(options, copy);
}

/// A new configuration has the given store and path, and leaves schema and options open.
pub proof fn new_configurations_leave_the_rest_open<S: ?Sized, F: ?Sized>(
    object_store: Arc<S>,
    table_path: String,
    config: ListingTableConfig<S, F>,
)
    requires
        call_ensures(ListingTableConfig::<S, F>::new, (object_store, table_path), config),
    ensures
        config.object_store == object_store,
        config.table_path@ == table_path@,
        config.file_schema is None,
        config.options is None,
{
    configurations_say_what_they_hold(config);
}

/// Giving a schema sets the schema and nothing else.
pub proof fn with_schema_sets_the_schema<S: ?Sized, F: ?Sized>(
    before: ListingTableConfig<S, F>,
    schema: SchemaRef,
    after: ListingTableConfig<S, F>,
)
    requires
        call_ensures(ListingTableConfig::<S, F>::with_schema, (before, schema), after),
    ensures
        after.object_store == before.object_store,
        after.table_path@ == before.table_path@,
        after.file_schema == Some(schema),
        same_optional_options(before.options, after.options),
{
    if let (Some(l), Some(r)) = (before.options, after.options) {
        options_are_their_fields(l, r);
    }
}

/// Giving options sets the options and nothing else.
pub proof fn with_listing_options_sets_the_options<S: ?Sized, F: ?Sized>(
    before: ListingTableConfig<S, F>,
    options: ListingOptions<F>,
    after: ListingTableConfig<S, F>,
)
    requires
        call_ensures(ListingTableConfig::<S, F>::with_listing_options, (before, options), after),
    ensures
        after.object_store == before.object_store,
        after.table_path@ == before.table_path@,
        after.file_schema == before.file_schema,
        after.options matches Some(kept) && same_options(options, kept),
{
    if let Some(kept) = after.options {
        options_are_their_fields(options, kept);
    }
}

/// What stands behind the last dot of a path names the format, whatever stands before it: `avro`,
/// `csv`, `json` and `parquet` name the format of that name, and anything else fails. The name is the
/// extension on which files are filtered, statistics are collected, and as many partitions are wanted
/// as were asked for.
pub proof fn extensions_name_formats<S: ?Sized, F: ?Sized>(
    config: &mut ListingTableConfig<S, F>,
    target_partitions: usize,
    result: Result<ListingOptions<F>, DataFusionError>,
    stem: Seq<char>,
    extension: Seq<char>,
)
    requires
        call_ensures(
            ListingTableConfig::<S, F>::infer_options_for,
            (config, target_partitions),
            result,
        ),
        !extension.contains('.'),
        old(config).table_path@ == stem.push('.') + extension || old(config).table_path@
            == extension,
    ensures
        extension == "avro"@ ==> result is Ok && result->Ok_0.format is Avro,
        extension == "csv"@ ==> result is Ok && result->Ok_0.format is Csv,
        extension == "json"@ ==> result is Ok && result->Ok_0.format is Json,
        extension == "parquet"@ ==> result is Ok && result->Ok_0.format is Parquet,
        result is Ok ==> {
            ||| extension == "avro"@
            ||| extension == "csv"@
            ||| extension == "json"@
            ||| extension == "parquet"@
        },
        result matches Ok(options) ==> {
            &&& options.file_extension@ == extension
            &&& options.collect_stat
            &&& options.target_partitions == target_partitions
        },
        result matches Err(error) ==> error matches DataFusionError::Internal(message) && message@
            == "Unable to infer file suffix"@,
{
    lemma_format_names_differ();
    if old(config).table_path@ == extension {
        suffix_of_a_name_without_dot(extension);
    } else {
        suffix_of_a_name_with_extension(stem, extension);
    }
}

/// The names of the four formats differ.
proof fn lemma_format_names_differ()
    ensures
        "avro"@ != "csv"@,
        "avro"@ != "json"@,
        "avro"@ != "parquet"@,
        "csv"@ != "json"@,
        "csv"@ != "parquet"@,
        "json"@ != "parquet"@,
{
    reveal_strlit("avro");
    reveal_strlit("csv");
    reveal_strlit("json");
    reveal_strlit("parquet");
    assert("avro"@[0] == 'a' && "json"@[0] == 'j');
    assert("avro"@.len() == 4 && "csv"@.len() == 3 && "json"@.len() == 4 && "parquet"@.len() == 7);
}

/// The partition columns of inferred options are those that the folders of the path name.
pub proof fn inferred_partition_columns_are_those_of_the_path<S: ?Sized, F: ?Sized>(
    config: &mut ListingTableConfig<S, F>,
    target_partitions: usize,
    result: Result<ListingOptions<F>, DataFusionError>,
)
    requires
        call_ensures(
            ListingTableConfig::<S, F>::infer_options_for,
            (config, target_partitions),
            result,
        ),
        result is Ok,
    ensures
        result->Ok_0.table_partition_cols@.len() == partition_cols_of(
            old(config).table_path@,
        ).len(),
        forall|i: int|
            0 <= i < result->Ok_0.table_partition_cols@.len() ==> (
            #[trigger] result->Ok_0.table_partition_cols@[i])@ == partition_cols_of(
                old(config).table_path@,
            )[i],
{
    options_say_what_they_hold(result->Ok_0);
    assert forall|i: int| 0 <= i < result->Ok_0.table_partition_cols@.len() implies (
    #[trigger] result->Ok_0.table_partition_cols@[i])@ == partition_cols_of(
        old(config).table_path@,
    )[i] by {
        assert(result->Ok_0@.table_partition_cols[i] == result->Ok_0.table_partition_cols@[i]@);
    }
}

/// Options that are inferred are kept in the configuration; a failed inference keeps the ones that
/// were there, and nothing else ever changes.
pub proof fn inferred_options_are_kept<S: ?Sized, F: ?Sized>(
    config: &mut ListingTableConfig<S, F>,
    target_partitions: usize,
    result: Result<ListingOptions<F>, DataFusionError>,
)
    requires
        call_ensures(
            ListingTableConfig::<S, F>::infer_options_for,
            (config, target_partitions),
            result,
        ),
    ensures
        final(config).object_store == old(config).object_store,
        final(config).table_path@ == old(config).table_path@,
        final(config).file_schema == old(config).file_schema,
        match result {
            Ok(options) => final(config).options is Some && same_options(
                options,
                final(config).options->0,
            ),
            Err(_) => same_optional_options(old(config).options, final(config).options),
        },
{
    match result {
        Ok(options) => {
            options_are_their_fields(options, final(config).options->0);
        },
        Err(_) => {
            if old(config).options is Some && final(config).options is Some {
                options_are_their_fields(old(config).options->0, final(config).options->0);
            }
        },
    }
}

/// Options that are inferred without a number of partitions are those that are inferred for a number
/// of CPUs that the machine reports.
pub proof fn inferred_options_want_a_partition_per_cpu<S: ?Sized, F: ?Sized>(
    config: &mut ListingTableConfig<S, F>,
    result: Result<ListingOptions<F>, DataFusionError>,
    stem: Seq<char>,
    extension: Seq<char>,
)
    requires
        call_ensures(ListingTableConfig::<S, F>::infer_options, (config,), result),
        !extension.contains('.'),
        old(config).table_path@ == stem.push('.') + extension || old(config).table_path@
            == extension,
    ensures
        extension == "avro"@ ==> result is Ok && result->Ok_0.format is Avro,
        extension == "csv"@ ==> result is Ok && result->Ok_0.format is Csv,
        extension == "json"@ ==> result is Ok && result->Ok_0.format is Json,
        extension == "parquet"@ ==> result is Ok && result->Ok_0.format is Parquet,
        result is Ok ==> {
            ||| extension == "avro"@
            ||| extension == "csv"@
            ||| extension == "json"@
            ||| extension == "parquet"@
        },
        result matches Ok(options) ==> {
            &&& options.file_extension@ == extension
            &&& options.collect_stat
            &&& options.target_partitions >= 1
            &&& call_ensures(num_cpus::get, (), options.target_partitions)
            &&& options@.table_partition_cols == partition_cols_of(old(config).table_path@)
            &&& final(config).options is Some
            &&& same_options(options, final(config).options->0)
        },
        result matches Err(error) ==> {
            &&& error matches DataFusionError::Internal(message)
            &&& message@ == "Unable to infer file suffix"@
            &&& same_optional_options(old(config).options, final(config).options)
        },
        final(config).object_store == old(config).object_store,
        final(config).table_path@ == old(config).table_path@,
        final(config).file_schema == old(config).file_schema,
{
    lemma_format_names_differ();
    if old(config).table_path@ == extension {
        suffix_of_a_name_without_dot(extension);
    } else {
        suffix_of_a_name_with_extension(stem, extension);
    }
    match result {
        Ok(options) => {
            options_are_their_fields(options, final(config).options->0);
        },
        Err(_) => {
            if old(config).options is Some && final(config).options is Some {
                options_are_their_fields(old(config).options->0, final(config).options->0);
            }
        },
    }
}

/// The inference of a schema starts with a listing, on the given store and path, of the files with
/// the extension in the options.
pub proof fn inference_lists_files_with_the_extension<S: ?Sized, F: ?Sized>(
    options: ListingOptions<F>,
    object_store: Arc<S>,
    path: &str,
    action: SchemaAction<S, F>,
)
    requires
        call_ensures(
            ListingOptions::<F>::infer_schema::<S>,
            (&options, object_store, path, SchemaEvent::Start),
            action,
        ),
    ensures
        action is ListFiles,
        action->ListFiles_object_store == object_store,
        action->path@ == path@,
        action->suffix@ == options.file_extension@,
{
}

/// After a successful listing the format in the options, and no other, is asked for the schema.
pub proof fn inference_asks_the_format_of_the_options<S: ?Sized, F: ?Sized>(
    options: ListingOptions<F>,
    object_store: Arc<S>,
    path: &str,
    event: SchemaEvent,
    action: SchemaAction<S, F>,
)
    requires
        call_ensures(
            ListingOptions::<F>::infer_schema::<S>,
            (&options, object_store, path, event),
            action,
        ),
    ensures
        action is InferSchema <==> event is Listed && event->Listed_0 is Ok,
        action is InferSchema ==> action->format == options.format,
{
}

/// Each file that is listed is opened on the given store; an error in the listing is handed on in its
/// place.
pub proof fn inference_opens_each_listed_file<S: ?Sized, F: ?Sized>(
    options: ListingOptions<F>,
    object_store: Arc<S>,
    path: &str,
    event: SchemaEvent,
    action: SchemaAction<S, F>,
)
    requires
        call_ensures(
            ListingOptions::<F>::infer_schema::<S>,
            (&options, object_store, path, event),
            action,
        ),
    ensures
        event matches SchemaEvent::File(Ok(meta)) ==> {
            &&& action is OpenReader
            &&& action->OpenReader_object_store == object_store
            &&& action->file == meta.sized_file
        },
        event matches SchemaEvent::File(Err(error)) ==> action is YieldError && action->YieldError_0
            == error,
        action is OpenReader || action is YieldError ==> event is File,
{
}

/// The answer of the format is the answer of the inference, and a listing that fails ends it with the
/// error of the listing.
pub proof fn inference_ends_with_the_answer_of_the_format<S: ?Sized, F: ?Sized>(
    options: ListingOptions<F>,
    object_store: Arc<S>,
    path: &str,
    event: SchemaEvent,
    action: SchemaAction<S, F>,
)
    requires
        call_ensures(
            ListingOptions::<F>::infer_schema::<S>,
            (&options, object_store, path, event),
            action,
        ),
    ensures
        event matches SchemaEvent::Inferred(result) ==> action is Done && action->Done_0 == result,
        event matches SchemaEvent::Listed(Err(error)) ==> action is Done && action->Done_0 == Err::<
            SchemaRef,
            DataFusionError,
        >(error),
        action is Done ==> event is Inferred || (event is Listed && event->Listed_0 is Err),
{
}

/// A configuration infers a schema as options do for its own store and path.
pub proof fn configurations_infer_on_their_store_and_path<S: ?Sized, F: ?Sized>(
    config: &mut ListingTableConfig<S, F>,
    options: ListingOptions<F>,
    event: SchemaEvent,
    action: SchemaAction<S, F>,
)
    requires
        call_ensures(ListingTableConfig::<S, F>::infer_schema, (config, &options, event), action),
    ensures
        event is Start ==> {
            &&& action is ListFiles
            &&& action->ListFiles_object_store == old(config).object_store
            &&& action->path@ == old(config).table_path@
            &&& action->suffix@ == options.file_extension@
        },
        action is InferSchema <==> event is Listed && event->Listed_0 is Ok,
        action is InferSchema ==> action->format == options.format,
        event matches SchemaEvent::File(Ok(meta)) ==> {
            &&& action is OpenReader
            &&& action->OpenReader_object_store == old(config).object_store
            &&& action->file == meta.sized_file
        },
        event matches SchemaEvent::File(Err(error)) ==> action is YieldError && action->YieldError_0
            == error,
        event matches SchemaEvent::Inferred(result) ==> action is Done && action->Done_0 == result,
        event matches SchemaEvent::Listed(Err(error)) ==> action is Done && action->Done_0 == Err::<
            SchemaRef,
            DataFusionError,
        >(error),
{
}

/// A schema that was inferred is kept in the configuration, and nothing else ever changes.
pub proof fn inferred_schemas_are_kept<S: ?Sized, F: ?Sized>(
    config: &mut ListingTableConfig<S, F>,
    options: ListingOptions<F>,
    event: SchemaEvent,
    action: SchemaAction<S, F>,
)
    requires
        call_ensures(ListingTableConfig::<S, F>::infer_schema, (config, &options, event), action),
    ensures
        final(config).object_store == old(config).object_store,
        final(config).table_path@ == old(config).table_path@,
        same_optional_options(old(config).options, final(config).options),
        final(config).file_schema == match event {
            SchemaEvent::Inferred(Ok(schema)) => Some(schema),
            _ => old(config).file_schema,
        },
{
    if old(config).options is Some && final(config).options is Some {
        options_are_their_fields(old(config).options->0, final(config).options->0);
    }
}

} // verus!
