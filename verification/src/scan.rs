//! Planning of a scan: which files it reads, in which groups, and the plan that reads them.
//!
//! The functions of this module decide; listing and opening files, reading statistics and creating
//! plans is the work of an object store, a file format and an engine. Each function takes what
//! happened last and says what is to be done next.

use crate::error::DataFusionError;
use crate::expr::Expr;
use crate::files::{no_statistics, PartitionedFile, SizedFile, Statistics};
use crate::format::FileFormat;
use crate::grouping::{file_groups, groups_are_within_the_limit, groups_view, split_files};
use crate::schema::{is_projection, positions, project_schema, texts};
use crate::table::{ListingTable, ListingTableView};
use arrow::datatypes::SchemaRef;
use std::sync::Arc;
use vstd::prelude::*;

verus! {

/// What happens while the statistics of one file are collected. `R` is the type of readers.
pub enum FileEvent<R> {
    /// The listing has yielded an entry.
    Listed(Result<PartitionedFile, DataFusionError>),
    /// The object store has answered the request for a reader of the file.
    ReaderOpened(PartitionedFile, Result<R, DataFusionError>),
    /// The file format has answered the request for the statistics of the file.
    StatisticsInferred(PartitionedFile, Result<Statistics, DataFusionError>),
}

/// What is to be done next while the statistics of one file are collected.
pub enum FileAction<'a, S: ?Sized, F: ?Sized, R> {
    /// Open a reader of `sized_file`.
    OpenReader { object_store: &'a Arc<S>, sized_file: SizedFile, part_file: PartitionedFile },
    /// Ask the file format for the statistics of what `reader` reads.
    InferStatistics { format: &'a FileFormat<F>, reader: R, part_file: PartitionedFile },
    /// The file is done with.
    Done(Result<(PartitionedFile, Statistics), DataFusionError>),
}

/// A request for the files of a table that may hold rows that pass the filters.
pub struct ListRequest<'a, S: ?Sized> {
    pub object_store: &'a Arc<S>,
    pub table_path: &'a str,
    pub filters: &'a [Expr],
    pub file_extension: &'a str,
    pub table_partition_cols: &'a Vec<String>,
}

/// A request for the files that are needed to reach `limit` rows of the given schema, and for their
/// statistics taken together.
pub struct CollectRequest {
    pub schema: SchemaRef,
    pub limit: Option<usize>,
}

/// What happens while the files of a scan are listed.
pub enum ListEvent {
    /// The listing starts.
    Start,
    /// The request for the files of the table has been answered.
    Listed(Result<(), DataFusionError>),
    /// The request for the files and their statistics has been answered.
    Collected(Result<(Vec<PartitionedFile>, Statistics), DataFusionError>),
}

/// What is to be done next while the files of a scan are listed.
pub enum ListAction<'a, S: ?Sized> {
    ListFiles(ListRequest<'a, S>),
    CollectStatistics(CollectRequest),
    /// The files are listed: their groups, and their statistics taken together.
    Done(Result<(Vec<Vec<PartitionedFile>>, Statistics), DataFusionError>),
}

/// What a file format makes a plan from.
pub struct FileScanConfig<S: ?Sized> {
    pub object_store: Arc<S>,
    pub file_schema: SchemaRef,
    pub file_groups: Vec<Vec<PartitionedFile>>,
    pub statistics: Statistics,
    pub projection: Option<Vec<usize>>,
    pub limit: Option<usize>,
    pub table_partition_cols: Vec<String>,
}

/// A plan that reads nothing.
pub struct EmptyExec {
    /// Whether the plan yields one row nevertheless.
    pub produce_one_row: bool,
    pub schema: SchemaRef,
}

/// The plan of a scan. `P` is the type of the plans of file formats.
pub enum ScanPlan<P> {
    Empty(EmptyExec),
    Files(P),
}

/// What happens while a scan is planned.
pub enum ScanEvent<P> {
    /// Something happened while the files were listed.
    Listing(ListEvent),
    /// The file format has answered the request for a plan.
    Planned(Result<P, DataFusionError>),
}

/// What is to be done next while a scan is planned.
pub enum ScanAction<'a, S: ?Sized, F: ?Sized, P> {
    ListFiles(ListRequest<'a, S>),
    CollectStatistics(CollectRequest),
    /// Ask the file format for a plan.
    CreatePhysicalPlan {
        format: &'a FileFormat<F>,
        config: FileScanConfig<S>,
        filters: &'a [Expr],
    },
    /// The scan is planned.
    Done(Result<ScanPlan<P>, DataFusionError>),
}

/// `action` is what `event` calls for while the statistics of a file of `table` are collected.
pub open spec fn file_step<S: ?Sized, F: ?Sized, R>(
    table: ListingTableView<S, F>,
    event: FileEvent<R>,
    action: FileAction<S, F, R>,
) -> bool {
    match event {
        FileEvent::Listed(Ok(part_file)) => if table.options.collect_stat {
            &&& action matches FileAction::OpenReader { object_store, sized_file, part_file: opened }
            &&& *object_store == table.object_store
            &&& sized_file == part_file.file_meta.sized_file
            &&& opened == part_file
        } else {
            action == FileAction::<S, F, R>::Done(Ok((part_file, no_statistics())))
        },
        FileEvent::ReaderOpened(part_file, Ok(reader)) => {
            &&& action matches FileAction::InferStatistics { format, reader: read, part_file: opened }
            &&& *format == table.options.format
            &&& read == reader
            &&& opened == part_file
        },
        FileEvent::StatisticsInferred(part_file, Ok(statistics)) => action == FileAction::<
            S,
            F,
            R,
        >::Done(Ok((part_file, statistics))),
        FileEvent::Listed(Err(error))
        | FileEvent::ReaderOpened(_, Err(error))
        | FileEvent::StatisticsInferred(_, Err(error)) => action == FileAction::<S, F, R>::Done(
            Err(error),
        ),
    }
}

/// `request` asks for the files of `table` under `filters`.
pub open spec fn is_list_request<S: ?Sized, F: ?Sized>(
    table: ListingTableView<S, F>,
    filters: Seq<Expr>,
    request: ListRequest<S>,
) -> bool {
    &&& *request.object_store == table.object_store
    &&& request.table_path@ == table.table_path
    &&& request.filters@ == filters
    &&& request.file_extension@ == table.options.file_extension
    &&& texts(request.table_partition_cols@) == table.options.table_partition_cols
}

/// `action` is what `event` calls for while the files of a scan of `table` are listed.
pub open spec fn list_step<S: ?Sized, F: ?Sized>(
    table: ListingTableView<S, F>,
    filters: Seq<Expr>,
    limit: Option<usize>,
    event: ListEvent,
    action: ListAction<S>,
) -> bool {
    match event {
        ListEvent::Start => {
            &&& action matches ListAction::ListFiles(request)
            &&& is_list_request(table, filters, request)
        },
        ListEvent::Listed(Ok(_)) => action == ListAction::<S>::CollectStatistics(
            CollectRequest { schema: table.table_schema, limit },
        ),
        ListEvent::Collected(Ok((files, statistics))) => {
            &&& action matches ListAction::Done(Ok((groups, collected)))
            &&& groups_view(groups@) == file_groups(files@, table.options.target_partitions)
            &&& collected == statistics
        },
        ListEvent::Listed(Err(error)) | ListEvent::Collected(Err(error)) => action
            == ListAction::<S>::Done(Err(error)),
    }
}

/// A file was collected only where the table may have a group for it.
pub open spec fn groups_possible(event: ListEvent, target_partitions: nat) -> bool {
    event matches ListEvent::Collected(Ok((files, _))) ==> files@.len() > 0 ==> target_partitions
        > 0
}

/// `config` describes the scan of `groups` of files of `table`.
pub open spec fn is_scan_config<S: ?Sized, F: ?Sized>(
    table: ListingTableView<S, F>,
    groups: Seq<Seq<PartitionedFile>>,
    statistics: Statistics,
    projection: Option<Seq<usize>>,
    limit: Option<usize>,
    config: FileScanConfig<S>,
) -> bool {
    &&& config.object_store == table.object_store
    &&& config.file_schema == table.file_schema
    &&& groups_view(config.file_groups@) == groups
    &&& config.statistics == statistics
    &&& positions(config.projection) == projection
    &&& config.limit == limit
    &&& texts(config.table_partition_cols@) == table.options.table_partition_cols
}

/// `result` is the plan of a scan of `table` that reads no file: one of no rows, with the projected
/// schema of the table.
pub open spec fn is_empty_plan<S: ?Sized, F: ?Sized, P>(
    table: ListingTableView<S, F>,
    projection: Option<Seq<usize>>,
    result: Result<ScanPlan<P>, DataFusionError>,
) -> bool {
    match result {
        Ok(ScanPlan::Empty(plan)) => !plan.produce_one_row && is_projection(
            *table.table_schema,
            projection,
            Ok(plan.schema),
        ),
        Ok(ScanPlan::Files(_)) => false,
        Err(error) => is_projection(*table.table_schema, projection, Err(error)),
    }
}

/// `action` is what `event` calls for while a scan of `table` is planned.
pub open spec fn scan_step<S: ?Sized, F: ?Sized, P>(
    table: ListingTableView<S, F>,
    projection: Option<Seq<usize>>,
    filters: Seq<Expr>,
    limit: Option<usize>,
    event: ScanEvent<P>,
    action: ScanAction<S, F, P>,
) -> bool {
    match event {
        ScanEvent::Listing(ListEvent::Start) => {
            &&& action matches ScanAction::ListFiles(request)
            &&& is_list_request(table, filters, request)
        },
        ScanEvent::Listing(ListEvent::Listed(Ok(_))) => action == ScanAction::<
            S,
            F,
            P,
        >::CollectStatistics(CollectRequest { schema: table.table_schema, limit }),
        ScanEvent::Listing(ListEvent::Collected(Ok((files, statistics)))) => if files@.len() == 0 {
            &&& action matches ScanAction::Done(result)
            &&& is_empty_plan(table, projection, result)
        } else {
            &&& action matches ScanAction::CreatePhysicalPlan { format, config, filters: handed }
            &&& *format == table.options.format
            &&& handed@ == filters
            &&& is_scan_config(
                table,
                file_groups(files@, table.options.target_partitions),
                statistics,
                projection,
                limit,
                config,
            )
        },
        ScanEvent::Planned(Ok(plan)) => action == ScanAction::<S, F, P>::Done(
            Ok(ScanPlan::Files(plan)),
        ),
        ScanEvent::Listing(ListEvent::Listed(Err(error)))
        | ScanEvent::Listing(ListEvent::Collected(Err(error)))
        | ScanEvent::Planned(Err(error)) => action == ScanAction::<S, F, P>::Done(Err(error)),
    }
}

/// The files that were collected have no groups if and only if there are none.
proof fn lemma_collected_groups(event: ListEvent, target_partitions: nat)
    requires
        groups_possible(event, target_partitions),
    ensures
        event matches ListEvent::Collected(Ok((files, _))) ==> (file_groups(
            files@,
            target_partitions,
        ).len() == 0 <==> files@.len() == 0),
{
    if let ListEvent::Collected(Ok((files, _))) = event {
        groups_are_within_the_limit(files@, target_partitions);
    }
}

impl<S: ?Sized, F: ?Sized> ListingTable<S, F> {
    /// Collects the statistics of a file that was listed, if the options ask for it; else the file
    /// goes without, and is not opened. What fails for the file fails it.
    pub fn collect_file_statistics<'a, R>(&'a self, event: FileEvent<R>) -> (action: FileAction<
        'a,
        S,
        F,
        R,
    >)
        ensures
            file_step(self@, event, action),
    {
        match event {
            FileEvent::Listed(Ok(part_file)) => if self.options().collect_stat {
                FileAction::OpenReader {
                    object_store: self.object_store(),
                    sized_file: part_file.file_meta.sized_file.clone(),
                    part_file,
                }
            } else {
                FileAction::Done(Ok((part_file, Statistics::default())))
            },
            FileEvent::ReaderOpened(part_file, Ok(reader)) => FileAction::InferStatistics {
                format: &self.options().format,
                reader,
                part_file,
            },
            FileEvent::StatisticsInferred(part_file, Ok(statistics)) => FileAction::Done(
                Ok((part_file, statistics)),
            ),
            FileEvent::Listed(Err(error)) => FileAction::Done(Err(error)),
            FileEvent::ReaderOpened(_, Err(error)) => FileAction::Done(Err(error)),
            FileEvent::StatisticsInferred(_, Err(error)) => FileAction::Done(Err(error)),
        }
    }

    /// Get the list of files for a scan as well as the file level statistics.
    /// The list is grouped to let the execution plan know how the files should
    /// be distributed to different threads / executors.
    pub fn list_files_for_scan<'a>(
        &'a self,
        filters: &'a [Expr],
        limit: Option<usize>,
        event: ListEvent,
    ) -> (action: ListAction<'a, S>)
        requires
            groups_possible(event, self@.options.target_partitions),
        ensures
            list_step(self@, filters@, limit, event, action),
    {
        match event {
            // list files (with partitions)
            ListEvent::Start => ListAction::ListFiles(
                ListRequest {
                    object_store: self.object_store(),
                    table_path: self.table_path(),
                    filters,
                    file_extension: self.options().file_extension.as_str(),
                    table_partition_cols: &self.options().table_partition_cols,
                },
            ),
            // collect the statistics if required by the config
            ListEvent::Listed(Ok(_)) => ListAction::CollectStatistics(
                CollectRequest { schema: self.schema(), limit },
            ),
            ListEvent::Collected(Ok((files, statistics))) => ListAction::Done(
                Ok((split_files(files, self.options().target_partitions), statistics)),
            ),
            ListEvent::Listed(Err(error)) => ListAction::Done(Err(error)),
            ListEvent::Collected(Err(error)) => ListAction::Done(Err(error)),
        }
    }

    /// Plans a scan: a plan of the file format over the groups of files that are listed, or one of
    /// no rows if there are none.
    pub fn scan<'a, P>(
        &'a self,
        projection: &Option<Vec<usize>>,
        filters: &'a [Expr],
        limit: Option<usize>,
        event: ScanEvent<P>,
    ) -> (action: ScanAction<'a, S, F, P>)
        requires
            event matches ScanEvent::Listing(listing) ==> groups_possible(
                listing,
                self@.options.target_partitions,
            ),
        ensures
            scan_step(self@, positions(*projection), filters@, limit, event, action),
    {
        let listing = match event {
            ScanEvent::Planned(Ok(plan)) => {
                return ScanAction::Done(Ok(ScanPlan::Files(plan)));
            },
            ScanEvent::Planned(Err(error)) => {
                return ScanAction::Done(Err(error));
            },
            ScanEvent::Listing(listing) => listing,
        };
        proof {
            lemma_collected_groups(listing, self@.options.target_partitions);
        }
        let (partitioned_file_lists, statistics) = match self.list_files_for_scan(
            filters,
            limit,
            listing,
        ) {
            ListAction::ListFiles(request) => {
                return ScanAction::ListFiles(request);
            },
            ListAction::CollectStatistics(request) => {
                return ScanAction::CollectStatistics(request);
            },
            ListAction::Done(Err(error)) => {
                return ScanAction::Done(Err(error));
            },
            ListAction::Done(Ok(listed)) => listed,
        };

        // if no files need to be read, return an `EmptyExec`
        if partitioned_file_lists.len() == 0 {
            let schema = self.schema();
            let result = match project_schema(&schema, projection.as_ref()) {
                Ok(projected_schema) => Ok(
                    ScanPlan::Empty(
                        EmptyExec { produce_one_row: false, schema: projected_schema },
                    ),
                ),
                Err(error) => Err(error),
            };
            return ScanAction::Done(result);
        }
        // create the execution plan

        let projection = match projection {
            Some(indices) => Some(indices.clone()),
            None => None,
        };
        let table_partition_cols = self.options().table_partition_cols.clone();
        ScanAction::CreatePhysicalPlan {
            format: &self.options().format,
            config: FileScanConfig {
                object_store: Arc::clone(self.object_store()),
                file_schema: Arc::clone(self.file_schema()),
                file_groups: partitioned_file_lists,
                statistics,
                projection,
                limit,
                table_partition_cols,
            },
            filters,
        }
    }
}

} // verus!
