//! What creating a table comes to, and what a table answers of itself, told of what callers see.

use crate::config::ListingTableConfig;
use crate::config_laws::{options_are_their_fields, same_options};
use crate::error::DataFusionError;
use crate::expr::{expr_applicable_for_cols, Expr, TableProviderFilterPushDown};
use crate::options::{ListingOptions, SchemaAction, SchemaEvent};
use crate::path::{suffix_of_a_name_with_extension, suffix_of_a_name_without_dot};
use crate::table::{new_step, ListingTable, PendingStep, PendingTable, TableStep};
use crate::value_laws::{has_partition_columns_behind, lemma_partition_columns_behind};
use arrow::datatypes::SchemaRef;
use std::sync::Arc;
use vstd::prelude::*;

verus! {

/// A table can be created if and only if options are given or the extension of the path names a
/// format. It is ready if the schema of its files is given, and waits for that schema otherwise.
pub proof fn tables_are_ready_once_the_schema_is_given<S: ?Sized, F: ?Sized>(
    config: ListingTableConfig<S, F>,
    target_partitions: usize,
    result: Result<TableStep<S, F>, DataFusionError>,
    stem: Seq<char>,
    extension: Seq<char>,
)
    requires
        call_ensures(ListingTable::<S, F>::new_for, (config, target_partitions), result)
            || call_ensures(ListingTable::<S, F>::new, (config,), result),
        !extension.contains('.'),
        config.table_path@ == stem.push('.') + extension || config.table_path@ == extension,
    ensures
        result is Ok <==> {
            ||| config.options is Some
            ||| extension == "avro"@
            ||| extension == "csv"@
            ||| extension == "json"@
            ||| extension == "parquet"@
        },
        result matches Ok(step) ==> (step is Ready <==> config.file_schema is Some),
        result matches Err(error) ==> error matches DataFusionError::Internal(message) && message@
            == "Unable to infer file suffix"@,
{
    if config.table_path@ == extension {
        suffix_of_a_name_without_dot(extension);
    } else {
        suffix_of_a_name_with_extension(stem, extension);
    }
}

/// A table that is ready has the store, the path, the schema and the options of its configuration.
pub proof fn ready_tables_hold_their_configuration<S: ?Sized, F: ?Sized>(
    config: ListingTableConfig<S, F>,
    target_partitions: usize,
    table: ListingTable<S, F>,
    object_store: &Arc<S>,
    table_path: &str,
    options: &ListingOptions<F>,
    schema: SchemaRef,
)
    requires
        call_ensures(
            ListingTable::<S, F>::new_for,
            (config, target_partitions),
            Ok(TableStep::Ready(table)),
        ) || call_ensures(ListingTable::<S, F>::new, (config,), Ok(TableStep::Ready(table))),
        call_ensures(ListingTable::<S, F>::object_store, (&table,), object_store),
        call_ensures(ListingTable::<S, F>::table_path, (&table,), table_path),
        call_ensures(ListingTable::<S, F>::options, (&table,), options),
        call_ensures(ListingTable::<S, F>::schema, (&table,), schema),
    ensures
        *object_store == config.object_store,
        table_path@ == config.table_path@,
        config.options matches Some(given) ==> same_options(given, *options),
        config.file_schema matches Some(file_schema) && has_partition_columns_behind(
            *file_schema,
            options.table_partition_cols@,
            *schema,
        ),
{
    if config.options is Some {
        options_are_their_fields(config.options->0, *options);
    }
    lemma_partition_columns_behind(
        &*config.file_schema->0,
        options.table_partition_cols@,
        &*schema,
    );
}

/// Options that a configuration leaves open are the ones that are inferred for its path and for as
/// many partitions as were asked for.
pub proof fn ready_tables_have_the_inferred_options<S: ?Sized, F: ?Sized>(
    config: ListingTableConfig<S, F>,
    target_partitions: usize,
    table: ListingTable<S, F>,
    options: &ListingOptions<F>,
    inferring: &mut ListingTableConfig<S, F>,
    inferred: Result<ListingOptions<F>, DataFusionError>,
)
    requires
        call_ensures(
            ListingTable::<S, F>::new_for,
            (config, target_partitions),
            Ok(TableStep::Ready(table)),
        ),
        call_ensures(ListingTable::<S, F>::options, (&table,), options),
        config.options is None,
        old(inferring).table_path@ == config.table_path@,
        call_ensures(
            ListingTableConfig::<S, F>::infer_options_for,
            (inferring, target_partitions),
            inferred,
        ),
    ensures
        inferred is Ok,
        same_options(inferred->Ok_0, *options),
        options.target_partitions == target_partitions,
{
    options_are_their_fields(inferred->Ok_0, *options);
}

/// Without a number of partitions, options are inferred for a number of CPUs that the machine reports.
pub proof fn ready_tables_want_a_partition_per_cpu<S: ?Sized, F: ?Sized>(
    config: ListingTableConfig<S, F>,
    table: ListingTable<S, F>,
    options: &ListingOptions<F>,
    inferring: &mut ListingTableConfig<S, F>,
    inferred: Result<ListingOptions<F>, DataFusionError>,
)
    requires
        call_ensures(ListingTable::<S, F>::new, (config,), Ok(TableStep::Ready(table))),
        call_ensures(ListingTable::<S, F>::options, (&table,), options),
        config.options is None,
        old(inferring).table_path@ == config.table_path@,
        call_ensures(
            ListingTableConfig::<S, F>::infer_options_for,
            (inferring, options.target_partitions),
            inferred,
        ),
    ensures
        options.target_partitions >= 1,
        call_ensures(num_cpus::get, (), options.target_partitions),
        inferred is Ok,
        same_options(inferred->Ok_0, *options),
{
    let cpus: usize = choose|cpus: usize|
        cpus >= 1 && #[trigger] call_ensures(num_cpus::get, (), cpus) && new_step(
            config@,
            cpus as nat,
            Ok(TableStep::Ready(table)),
        );
    assert(cpus == options.target_partitions);
    options_are_their_fields(inferred->Ok_0, *options);
}

/// A table that waits for its schema holds its configuration, with the options settled: those that
/// were given, else those that are inferred for its path.
pub proof fn pending_tables_hold_their_configuration<S: ?Sized, F: ?Sized>(
    config: ListingTableConfig<S, F>,
    target_partitions: usize,
    pending: PendingTable<S, F>,
    kept: &ListingTableConfig<S, F>,
    options: &ListingOptions<F>,
)
    requires
        call_ensures(
            ListingTable::<S, F>::new_for,
            (config, target_partitions),
            Ok(TableStep::NeedsSchema(pending)),
        ) || call_ensures(ListingTable::<S, F>::new, (config,), Ok(TableStep::NeedsSchema(pending))),
        call_ensures(PendingTable::<S, F>::config, (&pending,), kept),
        call_ensures(PendingTable::<S, F>::options, (&pending,), options),
    ensures
        kept.object_store == config.object_store,
        kept.table_path@ == config.table_path@,
        kept.file_schema is None,
        kept.options matches Some(settled) && same_options(settled, *options),
        config.options matches Some(given) ==> same_options(given, *options),
{
    options_are_their_fields(kept.options->0, *options);
    if config.options is Some {
        options_are_their_fields(config.options->0, *options);
    }
}

/// Options that a configuration leaves open are settled for a table that waits for its schema as they
/// are for one that is ready.
pub proof fn pending_tables_have_the_inferred_options<S: ?Sized, F: ?Sized>(
    config: ListingTableConfig<S, F>,
    target_partitions: usize,
    pending: PendingTable<S, F>,
    options: &ListingOptions<F>,
    inferring: &mut ListingTableConfig<S, F>,
    inferred: Result<ListingOptions<F>, DataFusionError>,
)
    requires
        call_ensures(
            ListingTable::<S, F>::new_for,
            (config, target_partitions),
            Ok(TableStep::NeedsSchema(pending)),
        ),
        call_ensures(PendingTable::<S, F>::options, (&pending,), options),
        config.options is None,
        old(inferring).table_path@ == config.table_path@,
        call_ensures(
            ListingTableConfig::<S, F>::infer_options_for,
            (inferring, target_partitions),
            inferred,
        ),
    ensures
        inferred is Ok,
        same_options(inferred->Ok_0, *options),
        options.target_partitions == target_partitions,
{
    options_are_their_fields(inferred->Ok_0, *options);
}

/// Without a number of partitions, the options of a table that waits for its schema are inferred for a
/// number of CPUs that the machine reports.
pub proof fn pending_tables_want_a_partition_per_cpu<S: ?Sized, F: ?Sized>(
    config: ListingTableConfig<S, F>,
    pending: PendingTable<S, F>,
    options: &ListingOptions<F>,
    inferring: &mut ListingTableConfig<S, F>,
    inferred: Result<ListingOptions<F>, DataFusionError>,
)
    requires
        call_ensures(ListingTable::<S, F>::new, (config,), Ok(TableStep::NeedsSchema(pending))),
        call_ensures(PendingTable::<S, F>::options, (&pending,), options),
        config.options is None,
        old(inferring).table_path@ == config.table_path@,
        call_ensures(
            ListingTableConfig::<S, F>::infer_options_for,
            (inferring, options.target_partitions),
            inferred,
        ),
    ensures
        options.target_partitions >= 1,
        call_ensures(num_cpus::get, (), options.target_partitions),
        inferred is Ok,
        same_options(inferred->Ok_0, *options),
{
    let cpus: usize = choose|cpus: usize|
        cpus >= 1 && #[trigger] call_ensures(num_cpus::get, (), cpus) && new_step(
            config@,
            cpus as nat,
            Ok(TableStep::NeedsSchema(pending)),
        );
    assert(cpus == options.target_partitions);
    options_are_their_fields(inferred->Ok_0, *options);
}

/// While a table waits for its schema it asks for what the inference needs: files with the extension
/// in its options under its path, a schema from the format in its options, and a reader of each listed
/// file on its store; an error in the listing is handed on.
pub proof fn pending_tables_infer_with_their_options<S: ?Sized, F: ?Sized>(
    pending: PendingTable<S, F>,
    event: SchemaEvent,
    step: PendingStep<S, F>,
    config: &ListingTableConfig<S, F>,
    options: &ListingOptions<F>,
)
    requires
        call_ensures(PendingTable::<S, F>::step, (pending, event), step),
        call_ensures(PendingTable::<S, F>::config, (&pending,), config),
        call_ensures(PendingTable::<S, F>::options, (&pending,), options),
    ensures
        event is Start ==> {
            &&& step matches PendingStep::Continue(_, action)
            &&& action is ListFiles
            &&& action->ListFiles_object_store == config.object_store
            &&& action->path@ == config.table_path@
            &&& action->suffix@ == options.file_extension@
        },
        event is Listed && event->Listed_0 is Ok ==> {
            &&& step matches PendingStep::Continue(_, action)
            &&& action is InferSchema
            &&& action->format == options.format
        },
        event matches SchemaEvent::File(Ok(meta)) ==> {
            &&& step matches PendingStep::Continue(_, action)
            &&& action is OpenReader
            &&& action->OpenReader_object_store == config.object_store
            &&& action->file == meta.sized_file
        },
        event matches SchemaEvent::File(Err(error)) ==> {
            &&& step matches PendingStep::Continue(_, action)
            &&& action is YieldError
            &&& action->YieldError_0 == error
        },
{
}

/// As long as the inference goes on, the table stays the same.
pub proof fn pending_tables_stay_the_same<S: ?Sized, F: ?Sized>(
    pending: PendingTable<S, F>,
    event: SchemaEvent,
    next: PendingTable<S, F>,
    action: SchemaAction<S, F>,
    config: &ListingTableConfig<S, F>,
    options: &ListingOptions<F>,
    next_config: &ListingTableConfig<S, F>,
    next_options: &ListingOptions<F>,
)
    requires
        call_ensures(
            PendingTable::<S, F>::step,
            (pending, event),
            PendingStep::Continue(next, action),
        ),
        call_ensures(PendingTable::<S, F>::config, (&pending,), config),
        call_ensures(PendingTable::<S, F>::options, (&pending,), options),
        call_ensures(PendingTable::<S, F>::config, (&next,), next_config),
        call_ensures(PendingTable::<S, F>::options, (&next,), next_options),
    ensures
        next_config.object_store == config.object_store,
        next_config.table_path@ == config.table_path@,
        next_config.file_schema == config.file_schema,
        same_options(*options, *next_options),
{
    options_are_their_fields(*options, *next_options);
}

/// The inference ends with a schema, with the failure to get one or with a listing that fails, and
/// with nothing else. A failure is the failure of the creation.
pub proof fn creation_ends_with_the_inference<S: ?Sized, F: ?Sized>(
    pending: PendingTable<S, F>,
    event: SchemaEvent,
    step: PendingStep<S, F>,
)
    requires
        call_ensures(PendingTable::<S, F>::step, (pending, event), step),
    ensures
        step is Finished <==> event is Inferred || (event is Listed && event->Listed_0 is Err),
        event matches SchemaEvent::Inferred(result) ==> step matches PendingStep::Finished(table) && (
        table is Ok <==> result is Ok),
        event matches SchemaEvent::Inferred(Err(error)) ==> step matches PendingStep::Finished(
            Err(handed),
        ) && handed == error,
        event matches SchemaEvent::Listed(Err(error)) ==> step matches PendingStep::Finished(
            Err(handed),
        ) && handed == error,
{
}

/// The schema that is inferred completes the table: it has the store, the path and the options that it
/// waited with, and the columns of that schema before the partition columns.
pub proof fn inferred_schemas_complete_the_table<S: ?Sized, F: ?Sized>(
    pending: PendingTable<S, F>,
    file_schema: SchemaRef,
    table: ListingTable<S, F>,
    config: &ListingTableConfig<S, F>,
    pending_options: &ListingOptions<F>,
    object_store: &Arc<S>,
    table_path: &str,
    options: &ListingOptions<F>,
    schema: SchemaRef,
)
    requires
        call_ensures(
            PendingTable::<S, F>::step,
            (pending, SchemaEvent::Inferred(Ok(file_schema))),
            PendingStep::Finished(Ok(table)),
        ),
        call_ensures(PendingTable::<S, F>::config, (&pending,), config),
        call_ensures(PendingTable::<S, F>::options, (&pending,), pending_options),
        call_ensures(ListingTable::<S, F>::object_store, (&table,), object_store),
        call_ensures(ListingTable::<S, F>::table_path, (&table,), table_path),
        call_ensures(ListingTable::<S, F>::options, (&table,), options),
        call_ensures(ListingTable::<S, F>::schema, (&table,), schema),
    ensures
        *object_store == config.object_store,
        table_path@ == config.table_path@,
        same_options(*pending_options, *options),
        has_partition_columns_behind(*file_schema, options.table_partition_cols@, *schema),
{
    options_are_their_fields(*pending_options, *options);
    lemma_partition_columns_behind(&*file_schema, options.table_partition_cols@, &*schema);
}

/// A filter is applied exactly if and only if the partition columns of the table decide it. Any other
/// is applied as far as the files allow, and none is refused.
pub proof fn filters_on_partition_columns_are_exact<S: ?Sized, F: ?Sized>(
    table: ListingTable<S, F>,
    options: &ListingOptions<F>,
    filter: &Expr,
    resolved: bool,
    result: Result<TableProviderFilterPushDown, DataFusionError>,
)
    requires
        call_ensures(ListingTable::<S, F>::options, (&table,), options),
        call_ensures(expr_applicable_for_cols, (&options.table_partition_cols, filter), resolved),
        call_ensures(ListingTable::<S, F>::supports_filter_pushdown, (&table, filter), result),
    ensures
        resolved ==> result is Ok && result->Ok_0 is Exact,
        !resolved ==> result is Ok && result->Ok_0 is Inexact,
{
}

} // verus!
