//! What holds of configurations, tables and scans across the functions that make them.

use crate::config::{inferred_options, ListingTableConfigView};
use crate::error::DataFusionError;
use crate::expr::{applicable, applicable_filters_mention_no_other_column, mentions, Expr};
use crate::files::{PartitionedFile, Statistics};
use crate::grouping::{groups_are_within_the_limit, groups_together_are_the_files, groups_view};
use crate::options::{ListingOptionsView, SchemaEvent};
use crate::path::{partition_cols_of, suffix_of};
use crate::scan::{
    file_step, list_step, scan_step, FileAction, FileEvent, ListAction, ListEvent, ScanAction,
    ScanEvent, ScanPlan,
};
use crate::schema::{columns, partition_column, partition_columns};
use crate::table::{
    new_step, pending_step, ListingTable, ListingTableView, PendingStep, PendingTable, TableStep,
};
use arrow::datatypes::SchemaRef;
use vstd::prelude::*;

verus! {

/// A schema and options may be given in either order, and the last that is given of each counts.
pub proof fn settings_are_independent<S: ?Sized, F: ?Sized>(
    config: ListingTableConfigView<S, F>,
    first: SchemaRef,
    schema: SchemaRef,
    other: ListingOptionsView<F>,
    options: ListingOptionsView<F>,
)
    ensures
        config.with_schema(schema).with_listing_options(options) == config.with_listing_options(
            options,
        ).with_schema(schema),
        config.with_schema(first).with_schema(schema) == config.with_schema(schema),
        config.with_listing_options(other).with_listing_options(options)
            == config.with_listing_options(options),
{
}

/// Options are inferred from the suffix of a path and from the partition columns that its folders name
/// alone.
pub proof fn suffix_and_folders_decide_inferred_options<F: ?Sized>(
    path: Seq<char>,
    other: Seq<char>,
    target_partitions: nat,
)
    requires
        suffix_of(path) == suffix_of(other),
        partition_cols_of(path) == partition_cols_of(other),
    ensures
        inferred_options::<F>(path, target_partitions) == inferred_options::<F>(
            other,
            target_partitions,
        ),
{
}

/// Options are inferred for the suffixes of the formats that are built in, and for no others; the
/// suffix is then the extension on which files are filtered, and the folders name the partition
/// columns.
pub proof fn four_suffixes_are_known<F: ?Sized>(path: Seq<char>, target_partitions: nat)
    ensures
        inferred_options::<F>(path, target_partitions) is Some <==> {
            ||| suffix_of(path) == "avro"@
            ||| suffix_of(path) == "csv"@
            ||| suffix_of(path) == "json"@
            ||| suffix_of(path) == "parquet"@
        },
        inferred_options::<F>(path, target_partitions) matches Some(options) ==> {
            &&& options.file_extension == suffix_of(path)
            &&& options.format !is Custom
            &&& options.table_partition_cols == partition_cols_of(path)
            &&& options.target_partitions == target_partitions
        },
{
}

/// Options that are inferred ask for statistics.
pub proof fn inferred_options_collect_statistics<F: ?Sized>(path: Seq<char>, target_partitions: nat)
    ensures
        inferred_options::<F>(path, target_partitions) matches Some(options)
            ==> options.collect_stat,
{
}

/// A table whose options are inferred has the columns of its files, then one for each partition column
/// that the folders of its path name.
pub proof fn folders_of_the_path_add_columns<S: ?Sized, F: ?Sized>(
    config: ListingTableConfigView<S, F>,
    cpus: nat,
    table: ListingTable<S, F>,
)
    requires
        config.options is None,
        new_step(config, cpus, Ok(TableStep::Ready(table))),
    ensures
        config.file_schema matches Some(file_schema) && columns(*table@.table_schema) == columns(
            *file_schema,
        ) + partition_columns(partition_cols_of(config.table_path)),
{
}

/// Where options are given, neither the path nor the number of CPUs has a part in what becomes of
/// them: creation succeeds, and the table has these options.
pub proof fn given_options_are_kept<S: ?Sized, F: ?Sized>(
    config: ListingTableConfigView<S, F>,
    cpus: nat,
    result: Result<TableStep<S, F>, DataFusionError>,
)
    requires
        config.options is Some,
        new_step(config, cpus, result),
    ensures
        match result {
            Ok(TableStep::Ready(table)) => table@.options == config.options->0,
            Ok(TableStep::NeedsSchema(pending)) => pending@.options == config.options->0,
            Err(_) => false,
        },
        forall|other: nat| new_step(config, other, result),
{
}

/// A table is there without any inference of a schema if and only if a schema was given.
pub proof fn given_schemas_are_not_inferred<S: ?Sized, F: ?Sized>(
    config: ListingTableConfigView<S, F>,
    cpus: nat,
    step: TableStep<S, F>,
)
    requires
        new_step(config, cpus, Ok(step)),
    ensures
        step is Ready <==> config.file_schema is Some,
        step matches TableStep::Ready(table) ==> Some(table@.file_schema) == config.file_schema,
{
}

/// A table for which the schema of the files is inferred is the table that the same configuration
/// with that schema gives.
pub proof fn inferred_schemas_serve_as_given_ones<S: ?Sized, F: ?Sized>(
    config: ListingTableConfigView<S, F>,
    cpus: nat,
    pending: PendingTable<S, F>,
    schema: SchemaRef,
    table: ListingTable<S, F>,
)
    requires
        new_step(config, cpus, Ok(TableStep::NeedsSchema(pending))),
        pending_step(
            pending@,
            SchemaEvent::Inferred(Ok(schema)),
            PendingStep::Finished(Ok(table)),
        ),
    ensures
        new_step(config.with_schema(schema), cpus, Ok(TableStep::Ready(table))),
{
}

/// The schema of a table starts with the columns of the files, unchanged, and ends with the partition
/// columns, one for each name and in the order of the names.
pub proof fn table_schema_extends_file_schema<S: ?Sized, F: ?Sized>(table: ListingTableView<S, F>)
    requires
        table.well_formed(),
    ensures
        columns(*table.table_schema).len() == columns(*table.file_schema).len()
            + table.options.table_partition_cols.len(),
        columns(*table.file_schema).is_prefix_of(columns(*table.table_schema)),
        forall|i: int|
            0 <= i < table.options.table_partition_cols.len() ==> #[trigger] columns(
                *table.table_schema,
            )[columns(*table.file_schema).len() + i] == partition_column(
                table.options.table_partition_cols[i],
            ),
{
    assert(columns(*table.file_schema) =~= columns(*table.table_schema).take(
        columns(*table.file_schema).len() as int,
    ));
}

/// The schema of a table without partition columns has the columns of the files.
pub proof fn unpartitioned_tables_have_the_columns_of_their_files<S: ?Sized, F: ?Sized>(
    table: ListingTableView<S, F>,
)
    requires
        table.well_formed(),
        table.options.table_partition_cols.len() == 0,
    ensures
        columns(*table.table_schema) == columns(*table.file_schema),
{
    assert(columns(*table.table_schema) =~= columns(*table.file_schema));
}

/// A filter that a table applies exactly mentions no column of the files alone: each column that it
/// mentions is a partition column.
pub proof fn exact_filters_read_partition_columns_only<S: ?Sized, F: ?Sized>(
    table: ListingTableView<S, F>,
    filter: Expr,
    name: Seq<char>,
)
    requires
        applicable(table.options.table_partition_cols, filter),
        mentions(filter, name),
    ensures
        table.options.table_partition_cols.contains(name),
{
    applicable_filters_mention_no_other_column(table.options.table_partition_cols, filter);
}

/// The error that an event of a schema inference reports, if the inference itself has failed.
pub open spec fn inference_failure(event: SchemaEvent) -> Option<DataFusionError> {
    match event {
        SchemaEvent::Listed(Err(error)) | SchemaEvent::Inferred(Err(error)) => Some(error),
        _ => None,
    }
}

/// A request that fails ends the creation of a table with its error, and nothing else does.
pub proof fn failures_end_the_creation<S: ?Sized, F: ?Sized>(
    pending: PendingTable<S, F>,
    event: SchemaEvent,
    step: PendingStep<S, F>,
)
    requires
        pending_step(pending@, event, step),
    ensures
        match inference_failure(event) {
            Some(error) => step == PendingStep::<S, F>::Finished(Err(error)),
            None => !(step matches PendingStep::Finished(Err(_))),
        },
{
}

/// The error that an event of a scan reports, if any.
pub open spec fn scan_failure<P>(event: ScanEvent<P>) -> Option<DataFusionError> {
    match event {
        ScanEvent::Listing(ListEvent::Listed(Err(error)))
        | ScanEvent::Listing(ListEvent::Collected(Err(error)))
        | ScanEvent::Planned(Err(error)) => Some(error),
        _ => None,
    }
}

/// The first request of a scan that fails ends it with its error.
pub proof fn failures_end_the_scan<S: ?Sized, F: ?Sized, P>(
    table: ListingTableView<S, F>,
    projection: Option<Seq<usize>>,
    filters: Seq<Expr>,
    limit: Option<usize>,
    event: ScanEvent<P>,
    action: ScanAction<S, F, P>,
)
    requires
        scan_step(table, projection, filters, limit, event, action),
        scan_failure(event) is Some,
    ensures
        action == ScanAction::<S, F, P>::Done(Err(scan_failure(event)->0)),
{
}

/// A scan for which no file was collected has a plan of no rows at once, without a request to the file
/// format; without a projection the schema of the plan is that of the table.
pub proof fn no_files_give_an_empty_plan<S: ?Sized, F: ?Sized, P>(
    table: ListingTableView<S, F>,
    filters: Seq<Expr>,
    limit: Option<usize>,
    files: Vec<PartitionedFile>,
    statistics: Statistics,
    action: ScanAction<S, F, P>,
)
    requires
        files@.len() == 0,
        scan_step(
            table,
            None,
            filters,
            limit,
            ScanEvent::Listing(ListEvent::Collected(Ok((files, statistics)))),
            action,
        ),
    ensures
        action matches ScanAction::Done(Ok(ScanPlan::Empty(plan))) && !plan.produce_one_row
            && plan.schema == table.table_schema,
{
}

/// A plan that a file format is asked for reads every file that was collected, once and in order, in
/// at least one and at most as many groups as the options say, none of them empty.
pub proof fn plans_read_every_file<S: ?Sized, F: ?Sized, P>(
    table: ListingTableView<S, F>,
    projection: Option<Seq<usize>>,
    filters: Seq<Expr>,
    limit: Option<usize>,
    files: Vec<PartitionedFile>,
    statistics: Statistics,
    action: ScanAction<S, F, P>,
)
    requires
        files@.len() > 0,
        table.options.target_partitions > 0,
        scan_step(
            table,
            projection,
            filters,
            limit,
            ScanEvent::Listing(ListEvent::Collected(Ok((files, statistics)))),
            action,
        ),
    ensures
        action matches ScanAction::CreatePhysicalPlan { config, .. } && {
            &&& groups_view(config.file_groups@).flatten() == files@
            &&& 1 <= config.file_groups@.len() <= table.options.target_partitions
            &&& forall|i: int|
                0 <= i < config.file_groups@.len() ==> (#[trigger] config.file_groups@[i])@.len()
                    > 0
        },
{
    let n = table.options.target_partitions;
    groups_together_are_the_files(files@, n);
    groups_are_within_the_limit(files@, n);
    if let ScanAction::CreatePhysicalPlan { config, .. } = action {
        assert forall|i: int| 0 <= i < config.file_groups@.len() implies (
        #[trigger] config.file_groups@[i])@.len() > 0 by {
            assert(groups_view(config.file_groups@)[i] == config.file_groups@[i]@);
        }
    }
}

/// A scan hands the file format the groups and the statistics that listing its files gives.
pub proof fn scans_read_what_is_listed<S: ?Sized, F: ?Sized, P>(
    table: ListingTableView<S, F>,
    projection: Option<Seq<usize>>,
    filters: Seq<Expr>,
    limit: Option<usize>,
    event: ListEvent,
    listed: ListAction<S>,
    planned: ScanAction<S, F, P>,
)
    requires
        list_step(table, filters, limit, event, listed),
        scan_step(table, projection, filters, limit, ScanEvent::Listing(event), planned),
    ensures
        match planned {
            ScanAction::ListFiles(_) => listed is ListFiles,
            ScanAction::CollectStatistics(request) => listed
                == ListAction::<S>::CollectStatistics(request),
            ScanAction::CreatePhysicalPlan { config, .. } => {
                &&& listed matches ListAction::Done(Ok((groups, statistics)))
                &&& groups_view(config.file_groups@) == groups_view(groups@)
                &&& config.statistics == statistics
            },
            ScanAction::Done(_) => listed is Done,
        },
{
}

/// No file is opened for its statistics where the options do not ask for them.
pub proof fn files_stay_closed_without_statistics<S: ?Sized, F: ?Sized, R>(
    table: ListingTableView<S, F>,
    part_file: Result<PartitionedFile, DataFusionError>,
    action: FileAction<S, F, R>,
)
    requires
        !table.options.collect_stat,
        file_step(table, FileEvent::Listed(part_file), action),
    ensures
        action is Done,
{
}

} // verus!
