//! What planning a scan comes to, told of what callers hand in and get back.

use crate::config::ListingTableConfig;
use crate::config_laws::same_texts;
use crate::error::DataFusionError;
use crate::expr::Expr;
use crate::files::{PartitionedFile, Statistics};
use crate::format::FileFormat;
use crate::options::{ListingOptions, SchemaAction, SchemaEvent};
use crate::scan::{
    EmptyExec, FileAction, FileEvent, FileScanConfig, ListAction, ListEvent,
    ScanAction, ScanEvent, ScanPlan,
};
use crate::schema::{
    columns, field_view, project_schema, projection_error, schema_fields, schema_metadata, texts,
};
use crate::table::{ListingTable, PendingStep, PendingTable, TableStep};
use crate::value_laws::{lemma_groups, lemma_projected_columns};
use arrow::datatypes::SchemaRef;
use std::sync::Arc;
use vstd::prelude::*;

verus! {

/// Texts that hold the same are the same texts.
proof fn lemma_same_texts(left: Seq<String>, right: Seq<String>)
    requires
        texts(left) == texts(right),
    ensures
        same_texts(left, right),
{
    assert(texts(left).len() == left.len());
    assert(texts(right).len() == right.len());
    assert forall|i: int| 0 <= i < left.len() implies (#[trigger] left[i])@ == right[i]@ by {
        assert(texts(left)[i] == left[i]@);
        assert(texts(right)[i] == right[i]@);
    }
}

/// A scan and a listing for one start with a request for the files of the table: on its store, under
/// its path, with the very extension and for the very partition columns in its options, and under the
/// filters of the scan.
pub proof fn scans_list_files_with_the_extension<S: ?Sized, F: ?Sized, P>(
    table: ListingTable<S, F>,
    object_store: &Arc<S>,
    table_path: &str,
    options: &ListingOptions<F>,
    projection: Option<Vec<usize>>,
    filters: &[Expr],
    limit: Option<usize>,
    listing: ListAction<S>,
    scan: ScanAction<S, F, P>,
)
    requires
        call_ensures(ListingTable::<S, F>::object_store, (&table,), object_store),
        call_ensures(ListingTable::<S, F>::table_path, (&table,), table_path),
        call_ensures(ListingTable::<S, F>::options, (&table,), options),
        call_ensures(
            ListingTable::<S, F>::list_files_for_scan,
            (&table, filters, limit, ListEvent::Start),
            listing,
        ),
        call_ensures(
            ListingTable::<S, F>::scan::<P>,
            (&table, &projection, filters, limit, ScanEvent::Listing(ListEvent::Start)),
            scan,
        ),
    ensures
        listing matches ListAction::ListFiles(request) && {
            &&& *request.object_store == *object_store
            &&& request.table_path@ == table_path@
            &&& request.filters@ == filters@
            &&& request.file_extension@ == options.file_extension@
            &&& same_texts(request.table_partition_cols@, options.table_partition_cols@)
        },
        scan matches ScanAction::ListFiles(request) && {
            &&& *request.object_store == *object_store
            &&& request.table_path@ == table_path@
            &&& request.filters@ == filters@
            &&& request.file_extension@ == options.file_extension@
            &&& same_texts(request.table_partition_cols@, options.table_partition_cols@)
        },
{
    if let ListAction::ListFiles(request) = listing {
        lemma_same_texts(request.table_partition_cols@, options.table_partition_cols@);
    }
    if let ScanAction::ListFiles(request) = scan {
        lemma_same_texts(request.table_partition_cols@, options.table_partition_cols@);
    }
}

/// A scan lists the files from which the schema of the table is inferred: those on the same store, under
/// the same path, with the same extension.
pub proof fn scans_list_the_files_of_the_inference<S: ?Sized, F: ?Sized, P>(
    table: ListingTable<S, F>,
    object_store: &Arc<S>,
    table_path: &str,
    options: &ListingOptions<F>,
    inference: SchemaAction<S, F>,
    projection: Option<Vec<usize>>,
    filters: &[Expr],
    limit: Option<usize>,
    scan: ScanAction<S, F, P>,
)
    requires
        call_ensures(ListingTable::<S, F>::object_store, (&table,), object_store),
        call_ensures(ListingTable::<S, F>::table_path, (&table,), table_path),
        call_ensures(ListingTable::<S, F>::options, (&table,), options),
        call_ensures(
            ListingOptions::<F>::infer_schema::<S>,
            (options, *object_store, table_path, SchemaEvent::Start),
            inference,
        ),
        call_ensures(
            ListingTable::<S, F>::scan::<P>,
            (&table, &projection, filters, limit, ScanEvent::Listing(ListEvent::Start)),
            scan,
        ),
    ensures
        inference is ListFiles,
        scan matches ScanAction::ListFiles(request) && {
            &&& *request.object_store == inference->ListFiles_object_store
            &&& request.table_path@ == inference->path@
            &&& request.file_extension@ == inference->suffix@
        },
{
}

/// After the listing, files and statistics are asked for in terms of the schema of the table, and up to
/// the limit of the scan.
pub proof fn scans_collect_up_to_the_limit<S: ?Sized, F: ?Sized, P>(
    table: ListingTable<S, F>,
    schema: SchemaRef,
    projection: Option<Vec<usize>>,
    filters: &[Expr],
    limit: Option<usize>,
    listing: ListAction<S>,
    scan: ScanAction<S, F, P>,
)
    requires
        call_ensures(ListingTable::<S, F>::schema, (&table,), schema),
        call_ensures(
            ListingTable::<S, F>::list_files_for_scan,
            (&table, filters, limit, ListEvent::Listed(Ok(()))),
            listing,
        ),
        call_ensures(
            ListingTable::<S, F>::scan::<P>,
            (&table, &projection, filters, limit, ScanEvent::Listing(ListEvent::Listed(Ok(())))),
            scan,
        ),
    ensures
        listing matches ListAction::CollectStatistics(request) && {
            &&& request.schema == schema
            &&& request.limit == limit
        },
        scan matches ScanAction::CollectStatistics(request) && {
            &&& request.schema == schema
            &&& request.limit == limit
        },
{
}

/// The files that were collected are distributed over no more groups than there are target partitions:
/// together the groups are the files in order, none is empty, and all but the last are of one length,
/// the least with which that many groups suffice. The statistics are handed on.
pub proof fn listed_files_are_grouped<S: ?Sized, F: ?Sized>(
    table: ListingTable<S, F>,
    options: &ListingOptions<F>,
    filters: &[Expr],
    limit: Option<usize>,
    files: Vec<PartitionedFile>,
    statistics: Statistics,
    listing: ListAction<S>,
)
    requires
        call_ensures(ListingTable::<S, F>::options, (&table,), options),
        files@.len() > 0 ==> options.target_partitions > 0,
        call_ensures(
            ListingTable::<S, F>::list_files_for_scan,
            (&table, filters, limit, ListEvent::Collected(Ok((files, statistics)))),
            listing,
        ),
    ensures
        listing matches ListAction::Done(Ok((groups, collected))) && {
            &&& collected == statistics
            &&& groups@.map_values(|group: Vec<PartitionedFile>| group@).flatten() == files@
            &&& groups@.len() <= options.target_partitions
            &&& groups@.len() == 0 <==> files@.len() == 0
            &&& forall|i: int| 0 <= i < groups@.len() ==> (#[trigger] groups@[i])@.len() > 0
            &&& files@.len() > 0 ==> {
                let size = groups@[0]@.len();
                &&& size * options.target_partitions >= files@.len()
                &&& (size - 1) * options.target_partitions < files@.len()
                &&& forall|i: int|
                    0 <= i < groups@.len() - 1 ==> (#[trigger] groups@[i])@.len() == size
                &&& groups@.last()@.len() <= size
            }
        },
{
    if let ListAction::Done(Ok((groups, _))) = listing {
        lemma_groups(files@, options.target_partitions as nat, groups@);
    }
}

/// A plan over files is asked for if and only if files were collected. It is asked from the format in
/// the options of the table, under the filters of the scan.
pub proof fn plans_are_of_the_format_of_the_table<S: ?Sized, F: ?Sized, P>(
    table: ListingTable<S, F>,
    options: &ListingOptions<F>,
    projection: Option<Vec<usize>>,
    filters: &[Expr],
    limit: Option<usize>,
    event: ScanEvent<P>,
    scan: ScanAction<S, F, P>,
)
    requires
        call_ensures(ListingTable::<S, F>::options, (&table,), options),
        call_ensures(
            ListingTable::<S, F>::scan::<P>,
            (&table, &projection, filters, limit, event),
            scan,
        ),
    ensures
        scan is CreatePhysicalPlan <==> (event matches ScanEvent::Listing(
            ListEvent::Collected(Ok((files, _))),
        ) && files@.len() > 0),
        scan is CreatePhysicalPlan ==> {
            &&& *scan->format == options.format
            &&& scan->filters@ == filters@
        },
{
}

/// What is handed to the format names exactly the positions that the scan asks for, as many and in that
/// order, or none if the scan asks for all columns.
pub proof fn plans_read_the_positions_that_are_asked_for<S: ?Sized, F: ?Sized, P>(
    table: ListingTable<S, F>,
    projection: Option<Vec<usize>>,
    filters: &[Expr],
    limit: Option<usize>,
    event: ScanEvent<P>,
    format: &FileFormat<F>,
    config: FileScanConfig<S>,
    handed: &[Expr],
)
    requires
        call_ensures(
            ListingTable::<S, F>::scan::<P>,
            (&table, &projection, filters, limit, event),
            (ScanAction::CreatePhysicalPlan { format, config, filters: handed }),
        ),
    ensures
        config.projection is Some <==> projection is Some,
        projection is Some ==> config.projection->0@.len() == projection->0@.len(),
        projection is Some ==> forall|i: int|
            0 <= i < projection->0@.len() ==> #[trigger] config.projection->0@[i]
                == projection->0@[i],
{
}

/// The columns that a plan yields for the projection that is handed to the format are the columns of the
/// table at the positions that the scan asks for, as many and in that order.
pub proof fn plans_yield_the_columns_that_are_asked_for<S: ?Sized, F: ?Sized, P>(
    table: ListingTable<S, F>,
    schema: SchemaRef,
    projection: Vec<usize>,
    filters: &[Expr],
    limit: Option<usize>,
    event: ScanEvent<P>,
    format: &FileFormat<F>,
    config: FileScanConfig<S>,
    handed: &[Expr],
    yielded: Result<SchemaRef, DataFusionError>,
)
    requires
        call_ensures(ListingTable::<S, F>::schema, (&table,), schema),
        call_ensures(
            ListingTable::<S, F>::scan::<P>,
            (&table, &Some(projection), filters, limit, event),
            (ScanAction::CreatePhysicalPlan { format, config, filters: handed }),
        ),
        config.projection is Some,
        call_ensures(project_schema, (&schema, Some(&config.projection->0)), yielded),
    ensures
        yielded is Ok <==> forall|i: int|
            0 <= i < projection@.len() ==> #[trigger] projection@[i] < schema_fields(*schema).len(),
        yielded matches Ok(plan_schema) ==> {
            &&& schema_fields(*plan_schema).len() == projection@.len()
            &&& forall|i: int|
                0 <= i < projection@.len() ==> field_view(#[trigger] schema_fields(*plan_schema)[i])
                    == field_view(schema_fields(*schema)[projection@[i] as int])
        },
{
    assert(columns(*schema).len() == schema_fields(*schema).len());
    if let Ok(plan_schema) = yielded {
        lemma_projected_columns(&*schema, projection@, &*plan_schema);
    }
}

/// What is handed to the format names the store and the partition columns of the table, the limit of
/// the scan, the statistics that were collected, and the collected files in groups: together they are
/// the files in order, no more groups than there are target partitions, none of them empty, and all but
/// the last of one length, the least with which that many groups suffice.
pub proof fn plans_read_the_collected_files<S: ?Sized, F: ?Sized, P>(
    table: ListingTable<S, F>,
    object_store: &Arc<S>,
    options: &ListingOptions<F>,
    projection: Option<Vec<usize>>,
    filters: &[Expr],
    limit: Option<usize>,
    files: Vec<PartitionedFile>,
    statistics: Statistics,
    scan: ScanAction<S, F, P>,
)
    requires
        call_ensures(ListingTable::<S, F>::object_store, (&table,), object_store),
        call_ensures(ListingTable::<S, F>::options, (&table,), options),
        files@.len() > 0,
        options.target_partitions > 0,
        call_ensures(
            ListingTable::<S, F>::scan::<P>,
            (
                &table,
                &projection,
                filters,
                limit,
                ScanEvent::Listing(ListEvent::Collected(Ok((files, statistics)))),
            ),
            scan,
        ),
    ensures
        scan matches ScanAction::CreatePhysicalPlan { config, .. } && {
            let groups = config.file_groups@;
            let size = groups[0]@.len();
            &&& config.object_store == *object_store
            &&& config.statistics == statistics
            &&& config.limit == limit
            &&& same_texts(config.table_partition_cols@, options.table_partition_cols@)
            &&& groups.map_values(|group: Vec<PartitionedFile>| group@).flatten() == files@
            &&& 0 < groups.len() <= options.target_partitions
            &&& forall|i: int| 0 <= i < groups.len() ==> (#[trigger] groups[i])@.len() > 0
            &&& size * options.target_partitions >= files@.len()
            &&& (size - 1) * options.target_partitions < files@.len()
            &&& forall|i: int| 0 <= i < groups.len() - 1 ==> (#[trigger] groups[i])@.len() == size
            &&& groups.last()@.len() <= size
        },
{
    if let ScanAction::CreatePhysicalPlan { config, .. } = scan {
        lemma_same_texts(config.table_partition_cols@, options.table_partition_cols@);
        lemma_groups(files@, options.target_partitions as nat, config.file_groups@);
    }
}

/// The schema that is handed to the format with a plan is the one that was given for the files.
pub proof fn plans_read_the_given_schema<S: ?Sized, F: ?Sized, P>(
    config: ListingTableConfig<S, F>,
    target_partitions: usize,
    table: ListingTable<S, F>,
    projection: Option<Vec<usize>>,
    filters: &[Expr],
    limit: Option<usize>,
    event: ScanEvent<P>,
    format: &FileFormat<F>,
    scan_config: FileScanConfig<S>,
    handed: &[Expr],
)
    requires
        call_ensures(
            ListingTable::<S, F>::new_for,
            (config, target_partitions),
            Ok(TableStep::Ready(table)),
        ) || call_ensures(ListingTable::<S, F>::new, (config,), Ok(TableStep::Ready(table))),
        call_ensures(
            ListingTable::<S, F>::scan::<P>,
            (&table, &projection, filters, limit, event),
            (ScanAction::CreatePhysicalPlan { format, config: scan_config, filters: handed }),
        ),
    ensures
        config.file_schema == Some(scan_config.file_schema),
        scan_config.object_store == config.object_store,
        config.options matches Some(given) ==> *format == given.format,
{
}

/// The format that is asked for the schema of the files is the one that is asked for their statistics
/// and that plans the scan. The schema that it gives is handed back to it with the plan.
pub proof fn one_format_serves_the_table<S: ?Sized, F: ?Sized, P, R>(
    pending: PendingTable<S, F>,
    next: PendingTable<S, F>,
    asked: FileFormat<F>,
    file_schema: SchemaRef,
    table: ListingTable<S, F>,
    part_file: PartitionedFile,
    reader: R,
    action: FileAction<S, F, R>,
    projection: Option<Vec<usize>>,
    filters: &[Expr],
    limit: Option<usize>,
    event: ScanEvent<P>,
    format: &FileFormat<F>,
    config: FileScanConfig<S>,
    handed: &[Expr],
)
    requires
        call_ensures(
            PendingTable::<S, F>::step,
            (pending, SchemaEvent::Listed(Ok(()))),
            PendingStep::Continue(next, (SchemaAction::InferSchema { format: asked })),
        ),
        call_ensures(
            PendingTable::<S, F>::step,
            (next, SchemaEvent::Inferred(Ok(file_schema))),
            PendingStep::Finished(Ok(table)),
        ),
        call_ensures(
            ListingTable::<S, F>::collect_file_statistics::<R>,
            (&table, FileEvent::ReaderOpened(part_file, Ok(reader))),
            action,
        ),
        call_ensures(
            ListingTable::<S, F>::scan::<P>,
            (&table, &projection, filters, limit, event),
            (ScanAction::CreatePhysicalPlan { format, config, filters: handed }),
        ),
    ensures
        *format == asked,
        action is InferStatistics,
        *action->format == asked,
        config.file_schema == file_schema,
{
}

/// A table lists for a scan the files that it listed while it waited for its schema.
pub proof fn one_extension_serves_the_table<S: ?Sized, F: ?Sized, P>(
    pending: PendingTable<S, F>,
    next: PendingTable<S, F>,
    object_store: Arc<S>,
    path: String,
    suffix: String,
    file_schema: SchemaRef,
    table: ListingTable<S, F>,
    projection: Option<Vec<usize>>,
    filters: &[Expr],
    limit: Option<usize>,
    scan: ScanAction<S, F, P>,
)
    requires
        call_ensures(
            PendingTable::<S, F>::step,
            (pending, SchemaEvent::Start),
            PendingStep::Continue(next, (SchemaAction::ListFiles { object_store, path, suffix })),
        ),
        call_ensures(
            PendingTable::<S, F>::step,
            (next, SchemaEvent::Inferred(Ok(file_schema))),
            PendingStep::Finished(Ok(table)),
        ),
        call_ensures(
            ListingTable::<S, F>::scan::<P>,
            (&table, &projection, filters, limit, ScanEvent::Listing(ListEvent::Start)),
            scan,
        ),
    ensures
        scan matches ScanAction::ListFiles(request) && {
            &&& *request.object_store == object_store
            &&& request.table_path@ == path@
            &&& request.file_extension@ == suffix@
        },
{
}

/// A scan of no files is planned at once: without a projection, or with one of positions that are all
/// within the schema of the table, as a plan of no rows with the columns of the table at these positions
/// and the metadata of its schema; with any other projection it fails.
pub proof fn scans_of_no_files_yield_no_rows<S: ?Sized, F: ?Sized, P>(
    table: ListingTable<S, F>,
    schema: SchemaRef,
    projection: Option<Vec<usize>>,
    filters: &[Expr],
    limit: Option<usize>,
    files: Vec<PartitionedFile>,
    statistics: Statistics,
    scan: ScanAction<S, F, P>,
)
    requires
        call_ensures(ListingTable::<S, F>::schema, (&table,), schema),
        files@.len() == 0,
        call_ensures(
            ListingTable::<S, F>::scan::<P>,
            (
                &table,
                &projection,
                filters,
                limit,
                ScanEvent::Listing(ListEvent::Collected(Ok((files, statistics)))),
            ),
            scan,
        ),
    ensures
        scan is Done,
        scan->Done_0 is Ok <==> (projection is None || forall|i: int|
            0 <= i < projection->0@.len() ==> #[trigger] projection->0@[i] < schema_fields(
                *schema,
            ).len()),
        scan->Done_0 matches Ok(plan) ==> {
            &&& plan matches ScanPlan::Empty(empty)
            &&& !empty.produce_one_row
            &&& projection is None ==> empty.schema == schema
            &&& projection is Some ==> schema_fields(*empty.schema).len() == projection->0@.len()
            &&& projection is Some ==> forall|i: int|
                0 <= i < projection->0@.len() ==> field_view(
                    #[trigger] schema_fields(*empty.schema)[i],
                ) == field_view(schema_fields(*schema)[projection->0@[i] as int])
            &&& schema_metadata(*empty.schema) == schema_metadata(*schema)
        },
        scan->Done_0 matches Err(error) ==> error == DataFusionError::ArrowError(
            projection_error(projection->0@, schema_fields(*schema).len()),
        ),
{
    assert(columns(*schema).len() == schema_fields(*schema).len());
    if let ScanAction::Done(Ok(ScanPlan::Empty(EmptyExec { schema: projected, .. }))) = scan {
        if let Some(indices) = projection {
            lemma_projected_columns(&*schema, indices@, &*projected);
        }
    }
}

/// The answer of the format is the answer of the scan.
pub proof fn plans_of_the_format_are_handed_on<S: ?Sized, F: ?Sized, P>(
    table: ListingTable<S, F>,
    projection: Option<Vec<usize>>,
    filters: &[Expr],
    limit: Option<usize>,
    answer: Result<P, DataFusionError>,
    scan: ScanAction<S, F, P>,
)
    requires
        call_ensures(
            ListingTable::<S, F>::scan::<P>,
            (&table, &projection, filters, limit, ScanEvent::Planned(answer)),
            scan,
        ),
    ensures
        scan is Done,
        answer matches Ok(plan) ==> scan->Done_0 matches Ok(ScanPlan::Files(handed)) && handed == plan,
        answer matches Err(error) ==> scan->Done_0 matches Err(handed) && handed == error,
{
}

/// The first request that fails ends the listing and the scan with its error.
pub proof fn failed_requests_end_the_scan<S: ?Sized, F: ?Sized, P>(
    table: ListingTable<S, F>,
    projection: Option<Vec<usize>>,
    filters: &[Expr],
    limit: Option<usize>,
    event: ListEvent,
    error: DataFusionError,
    listing: ListAction<S>,
    scan: ScanAction<S, F, P>,
)
    requires
        event == ListEvent::Listed(Err(error)) || event == ListEvent::Collected(Err(error)),
        call_ensures(
            ListingTable::<S, F>::list_files_for_scan,
            (&table, filters, limit, event),
            listing,
        ),
        call_ensures(
            ListingTable::<S, F>::scan::<P>,
            (&table, &projection, filters, limit, ScanEvent::Listing(event)),
            scan,
        ),
    ensures
        listing matches ListAction::Done(Err(handed)) && handed == error,
        scan matches ScanAction::Done(Err(handed)) && handed == error,
{
}

/// A listing and a scan can go on after any event, as long as the options of the table want a partition
/// or no file was collected.
pub proof fn scans_go_on_after_any_event<S: ?Sized, F: ?Sized, P>(
    table: ListingTable<S, F>,
    options: &ListingOptions<F>,
    projection: Option<Vec<usize>>,
    filters: &[Expr],
    limit: Option<usize>,
    listed: ListEvent,
    event: ScanEvent<P>,
)
    requires
        call_ensures(ListingTable::<S, F>::options, (&table,), options),
    ensures
        options.target_partitions > 0 ==> {
            &&& call_requires(
                ListingTable::<S, F>::list_files_for_scan,
                (&table, filters, limit, listed),
            )
            &&& call_requires(
                ListingTable::<S, F>::scan::<P>,
                (&table, &projection, filters, limit, event),
            )
        },
        (listed matches ListEvent::Collected(Ok((files, _))) ==> files@.len() == 0) ==> {
            &&& call_requires(
                ListingTable::<S, F>::list_files_for_scan,
                (&table, filters, limit, listed),
            )
            &&& call_requires(
                ListingTable::<S, F>::scan::<P>,
                (&table, &projection, filters, limit, ScanEvent::Listing(listed)),
            )
        },
{
}

/// A listed file is opened for its statistics, on the store of the table, if and only if the options ask
/// for statistics; else it goes without.
pub proof fn files_are_opened_for_statistics_only<S: ?Sized, F: ?Sized, R>(
    table: ListingTable<S, F>,
    object_store: &Arc<S>,
    options: &ListingOptions<F>,
    part_file: PartitionedFile,
    action: FileAction<S, F, R>,
)
    requires
        call_ensures(ListingTable::<S, F>::object_store, (&table,), object_store),
        call_ensures(ListingTable::<S, F>::options, (&table,), options),
        call_ensures(
            ListingTable::<S, F>::collect_file_statistics::<R>,
            (&table, FileEvent::Listed(Ok(part_file))),
            action,
        ),
    ensures
        options.collect_stat ==> {
            &&& action is OpenReader
            &&& *action->object_store == *object_store
            &&& action->sized_file == part_file.file_meta.sized_file
            &&& action->OpenReader_part_file == part_file
        },
        !options.collect_stat ==> {
            &&& action is Done
            &&& action->Done_0 is Ok
            &&& action->Done_0->Ok_0.0 == part_file
            &&& action->Done_0->Ok_0.1.num_rows is None
            &&& action->Done_0->Ok_0.1.total_byte_size is None
            &&& action->Done_0->Ok_0.1.column_statistics is None
            &&& !action->Done_0->Ok_0.1.is_exact
        },
{
}

/// The statistics of a file are asked for from the format in the options of the table, once a reader of
/// the file is there and with that reader.
pub proof fn statistics_are_of_the_format_of_the_table<S: ?Sized, F: ?Sized, R>(
    table: ListingTable<S, F>,
    options: &ListingOptions<F>,
    event: FileEvent<R>,
    action: FileAction<S, F, R>,
)
    requires
        call_ensures(ListingTable::<S, F>::options, (&table,), options),
        call_ensures(
            ListingTable::<S, F>::collect_file_statistics::<R>,
            (&table, event),
            action,
        ),
    ensures
        action is InferStatistics <==> event is ReaderOpened && event->ReaderOpened_1 is Ok,
        action is InferStatistics ==> {
            &&& *action->format == options.format
            &&& action->reader == event->ReaderOpened_1->Ok_0
            &&& action->InferStatistics_part_file == event->ReaderOpened_0
        },
{
}

/// The statistics that the format gives are those of the file, and what fails for the file fails it.
pub proof fn statistics_belong_to_their_file<S: ?Sized, F: ?Sized, R>(
    table: ListingTable<S, F>,
    event: FileEvent<R>,
    action: FileAction<S, F, R>,
)
    requires
        call_ensures(
            ListingTable::<S, F>::collect_file_statistics::<R>,
            (&table, event),
            action,
        ),
    ensures
        event matches FileEvent::StatisticsInferred(part_file, Ok(statistics)) ==> {
            &&& action is Done
            &&& action->Done_0 is Ok
            &&& action->Done_0->Ok_0.0 == part_file
            &&& action->Done_0->Ok_0.1 == statistics
        },
        event matches FileEvent::Listed(Err(error)) ==> action matches FileAction::Done(Err(handed))
            && handed == error,
        event matches FileEvent::ReaderOpened(_, Err(error)) ==> action matches FileAction::Done(
            Err(handed),
        ) && handed == error,
        event matches FileEvent::StatisticsInferred(_, Err(error)) ==> action matches FileAction::Done(
            Err(handed),
        ) && handed == error,
{
}

} // verus!
