//! Tables that list files, and the planning of scans over them.

use crate::config::{inferred_options, is_suffix_error, ListingTableConfig, ListingTableConfigView};
use crate::error::DataFusionError;
use crate::expr::{applicable, expr_applicable_for_cols, Expr, TableProviderFilterPushDown};
use crate::options::{infer_schema_step, ListingOptions, ListingOptionsView, SchemaAction, SchemaEvent};
use crate::schema::{
    add_partition_columns, columns, partition_columns, schema_metadata, Metadata,
};
use arrow::datatypes::{Schema, SchemaRef};
use std::sync::Arc;
use vstd::prelude::*;

verus! {

/// An implementation of a table that uses the listing capability of an object store
/// or file system to get the list of files.
pub struct ListingTable<S: ?Sized, F: ?Sized> {
    object_store: Arc<S>,
    table_path: String,
    /// File fields only
    file_schema: SchemaRef,
    /// File fields + partition columns
    table_schema: SchemaRef,
    options: ListingOptions<F>,
}

/// What a table holds.
pub struct ListingTableView<S: ?Sized, F: ?Sized> {
    pub object_store: Arc<S>,
    pub table_path: Seq<char>,
    pub file_schema: SchemaRef,
    pub table_schema: SchemaRef,
    pub options: ListingOptionsView<F>,
}

impl<S: ?Sized, F: ?Sized> ListingTableView<S, F> {
    /// The schema of the table has the fields of the files, then the partition columns, and no
    /// metadata.
    pub open spec fn well_formed(self) -> bool {
        is_table_schema(*self.file_schema, self.options.table_partition_cols, *self.table_schema)
    }
}

/// `table_schema` has the columns of `file_schema`, then one for each of `table_partition_cols`, and
/// no metadata.
pub open spec fn is_table_schema(
    file_schema: Schema,
    table_partition_cols: Seq<Seq<char>>,
    table_schema: Schema,
) -> bool {
    &&& columns(table_schema) == columns(file_schema) + partition_columns(table_partition_cols)
    &&& schema_metadata(table_schema) == Metadata::empty()
}

impl<S: ?Sized, F: ?Sized> View for ListingTable<S, F> {
    type V = ListingTableView<S, F>;

    closed spec fn view(&self) -> ListingTableView<S, F> {
        ListingTableView {
            object_store: self.object_store,
            table_path: self.table_path@,
            file_schema: self.file_schema,
            table_schema: self.table_schema,
            options: self.options@,
        }
    }
}

/// `table` is the table of a configuration whose options and schema have been settled.
pub open spec fn is_table_of<S: ?Sized, F: ?Sized>(
    config: ListingTableConfigView<S, F>,
    options: ListingOptionsView<F>,
    file_schema: SchemaRef,
    table: ListingTableView<S, F>,
) -> bool {
    &&& table.object_store == config.object_store
    &&& table.table_path == config.table_path
    &&& table.options == options
    &&& table.file_schema == file_schema
    &&& table.well_formed()
}

/// How far the creation of a table has come.
pub enum TableStep<S: ?Sized, F: ?Sized> {
    /// The table is there.
    Ready(ListingTable<S, F>),
    /// The schema of its files has to be inferred first.
    NeedsSchema(PendingTable<S, F>),
}

/// A table whose options are settled and the schema of whose files is not.
pub struct PendingTable<S: ?Sized, F: ?Sized> {
    config: ListingTableConfig<S, F>,
    options: ListingOptions<F>,
}

/// What happens to a pending table.
pub enum PendingStep<S: ?Sized, F: ?Sized> {
    /// The inference goes on: do this, then step again with what came of it.
    Continue(PendingTable<S, F>, SchemaAction<S, F>),
    /// The inference is over.
    Finished(Result<ListingTable<S, F>, DataFusionError>),
}

/// What a pending table holds.
pub struct PendingTableView<S: ?Sized, F: ?Sized> {
    pub config: ListingTableConfigView<S, F>,
    pub options: ListingOptionsView<F>,
}

impl<S: ?Sized, F: ?Sized> View for PendingTable<S, F> {
    type V = PendingTableView<S, F>;

    closed spec fn view(&self) -> PendingTableView<S, F> {
        PendingTableView { config: self.config@, options: self.options@ }
    }
}

impl<S: ?Sized, F: ?Sized> PendingTable<S, F> {
    /// Get configuration ref
    pub fn config(&self) -> (config: &ListingTableConfig<S, F>)
        ensures
            config@ == self@.config,
    {
        &self.config
    }

    /// Get options ref
    pub fn options(&self) -> (options: &ListingOptions<F>)
        ensures
            options@ == self@.options,
    {
        &self.options
    }

    /// Goes on with the inference of the schema: the table is there once the schema is, and a
    /// failure of the inference is one of the creation.
    pub fn step(self, event: SchemaEvent) -> (step: PendingStep<S, F>)
        ensures
            pending_step(self@, event, step),
    {
        let mut config = self.config;
        let options = self.options;
        let action = config.infer_schema(&options, event);
        match action {
            SchemaAction::Done(Ok(schema)) => PendingStep::Finished(
                Ok(ListingTable::assemble(config, options, schema)),
            ),
            SchemaAction::Done(Err(error)) => PendingStep::Finished(Err(error)),
            action => PendingStep::Continue(PendingTable { config, options }, action),
        }
    }
}

/// `step` is what `event` makes of `pending`: a schema completes the table, a failed request ends its
/// creation, and after any other event the inference goes on with the same table.
pub open spec fn pending_step<S: ?Sized, F: ?Sized>(
    pending: PendingTableView<S, F>,
    event: SchemaEvent,
    step: PendingStep<S, F>,
) -> bool {
    match event {
        SchemaEvent::Inferred(Ok(schema)) => {
            &&& step matches PendingStep::Finished(Ok(table))
            &&& is_table_of(pending.config, pending.options, schema, table@)
        },
        SchemaEvent::Inferred(Err(error)) | SchemaEvent::Listed(Err(error)) => step
            == PendingStep::<S, F>::Finished(Err(error)),
        _ => {
            &&& step matches PendingStep::Continue(same, action)
            &&& same@ == pending
            &&& infer_schema_step(
                pending.options,
                pending.config.object_store,
                pending.config.table_path,
                event,
                action,
            )
        },
    }
}

/// `result` is what creating the table of `config` comes to when options are inferred for
/// `target_partitions` partitions: given options are kept, missing ones are inferred from the path;
/// the table is there at once if the schema of the files is given, else it waits for that schema.
pub open spec fn new_step<S: ?Sized, F: ?Sized>(
    config: ListingTableConfigView<S, F>,
    target_partitions: nat,
    result: Result<TableStep<S, F>, DataFusionError>,
) -> bool {
    let options = match config.options {
        Some(options) => Some(options),
        None => inferred_options::<F>(config.table_path, target_partitions),
    };
    match (options, config.file_schema) {
        (Some(options), Some(file_schema)) => {
            &&& result matches Ok(TableStep::Ready(table))
            &&& is_table_of(config, options, file_schema, table@)
        },
        (Some(options), None) => {
            &&& result matches Ok(TableStep::NeedsSchema(pending))
            &&& pending@.config == config.with_listing_options(options)
            &&& pending@.options == options
        },
        (None, _) => result matches Err(error) && is_suffix_error(error),
    }
}

impl<S: ?Sized, F: ?Sized> ListingTable<S, F> {
    #[verifier::type_invariant]
    spec fn inv(self) -> bool {
        self@.well_formed()
    }

    /// Create new table that lists the FS to get the files to scan.
    /// The provided `schema` must be resolved before creating the table
    /// and should contain the fields of the file without the table
    /// partitioning columns.
    ///
    /// Options that are not given are inferred from the path, for as many partitions as there are
    /// CPUs. The table is ready if the schema is given, and waits for it otherwise.
    pub fn new(config: ListingTableConfig<S, F>) -> (result: Result<
        TableStep<S, F>,
        DataFusionError,
    >)
        ensures
            exists|cpus: usize|
                cpus >= 1 && #[trigger] call_ensures(num_cpus::get, (), cpus) && new_step(
                    config@,
                    cpus as nat,
                    result,
                ),
    {
        let cpus: usize = num_cpus::get();
        Self::new_for(config, cpus)
    }

    /// Create new table as `new` does, for the given number of partitions where the options are
    /// inferred.
    pub fn new_for(config: ListingTableConfig<S, F>, target_partitions: usize) -> (result: Result<
        TableStep<S, F>,
        DataFusionError,
    >)
        ensures
            new_step(config@, target_partitions as nat, result),
    {
        let mut config = config;
        let options = match &config.options {
            Some(options) => options.clone(),
            None => match config.infer_options_for(target_partitions) {
                Ok(options) => options,
                Err(error) => {
                    return Err(error);
                },
            },
        };
        match &config.file_schema {
            Some(file_schema) => {
                let file_schema = Arc::clone(file_schema);
                Ok(TableStep::Ready(Self::assemble(config, options, file_schema)))
            },
            None => Ok(TableStep::NeedsSchema(PendingTable { config, options })),
        }
    }

    /// The table of a configuration with settled options and schema.
    fn assemble(
        config: ListingTableConfig<S, F>,
        options: ListingOptions<F>,
        file_schema: SchemaRef,
    ) -> (table: Self)
        ensures
            is_table_of(config@, options@, file_schema, table@),
    {
        // Add the partition columns to the file schema
        let table_schema = Arc::new(
            add_partition_columns(&file_schema, &options.table_partition_cols),
        );
        ListingTable {
            object_store: config.object_store,
            table_path: config.table_path,
            file_schema,
            table_schema,
            options,
        }
    }

    /// Get object store ref
    pub fn object_store(&self) -> (object_store: &Arc<S>)
        ensures
            *object_store == self@.object_store,
    {
        &self.object_store
    }

    /// Get path ref
    pub fn table_path(&self) -> (table_path: &str)
        ensures
            table_path@ == self@.table_path,
    {
        self.table_path.as_str()
    }

    /// Get options ref
    pub fn options(&self) -> (options: &ListingOptions<F>)
        ensures
            options@ == self@.options,
    {
        &self.options
    }

    /// The schema of the files.
    pub(crate) fn file_schema(&self) -> (file_schema: &SchemaRef)
        ensures
            *file_schema == self@.file_schema,
    {
        &self.file_schema
    }

    /// The schema of the table: the fields of the files, then the partition columns.
    pub fn schema(&self) -> (schema: SchemaRef)
        ensures
            schema == self@.table_schema,
            self@.well_formed(),
    {
        proof {
            use_type_invariant(self);
        }
        Arc::clone(&self.table_schema)
    }

    /// Whether the table applies `filter` itself. A filter that only reads partition columns is
    /// handled by leaving files out, which is exact; of any other the table may still leave out
    /// rows, but not all that fail it.
    pub fn supports_filter_pushdown(&self, filter: &Expr) -> (result: Result<
        TableProviderFilterPushDown,
        DataFusionError,
    >)
        ensures
            result == Ok::<TableProviderFilterPushDown, DataFusionError>(
                if applicable(self@.options.table_partition_cols, *filter) {
                    TableProviderFilterPushDown::Exact
                } else {
                    TableProviderFilterPushDown::Inexact
                },
            ),
    {
        if expr_applicable_for_cols(&self.options.table_partition_cols, filter) {
            // if filter can be handled by partition pruning, it is exact
            Ok(TableProviderFilterPushDown::Exact)
        } else {
            // otherwise, we still might be able to handle the filter with file
            // level mechanisms such as Parquet row group pruning.
            Ok(TableProviderFilterPushDown::Inexact)
        }
    }
}

} // verus!
