//! Configuration of a table, and inference of what it leaves open.

use crate::error::DataFusionError;
use crate::format::{format_of, infer_format};
use crate::options::{
    infer_schema_step, ListingOptions, ListingOptionsView, SchemaAction, SchemaEvent,
};
use crate::path::{infer_partition_cols, infer_suffix, partition_cols_of, suffix_of};
use arrow::datatypes::SchemaRef;
use std::sync::Arc;
use vstd::prelude::*;

verus! {

/// `num_cpus::get`: the number of CPUs that are available, at least one. Which number it is depends
/// on the machine and is not stated.
pub assume_specification[ num_cpus::get ]() -> (cpus: usize)
    ensures
        cpus >= 1,
;

/// Configuration for creating a 'ListingTable'
pub struct ListingTableConfig<S: ?Sized, F: ?Sized> {
    pub object_store: Arc<S>,
    pub table_path: String,
    pub file_schema: Option<SchemaRef>,
    pub options: Option<ListingOptions<F>>,
}

/// What a configuration says.
pub struct ListingTableConfigView<S: ?Sized, F: ?Sized> {
    pub object_store: Arc<S>,
    pub table_path: Seq<char>,
    pub file_schema: Option<SchemaRef>,
    pub options: Option<ListingOptionsView<F>>,
}

impl<S: ?Sized, F: ?Sized> View for ListingTableConfig<S, F> {
    type V = ListingTableConfigView<S, F>;

    open spec fn view(&self) -> ListingTableConfigView<S, F> {
        ListingTableConfigView {
            object_store: self.object_store,
            table_path: self.table_path@,
            file_schema: self.file_schema,
            options: match self.options {
                Some(options) => Some(options@),
                None => None,
            },
        }
    }
}

impl<S: ?Sized, F: ?Sized> ListingTableConfigView<S, F> {
    /// A configuration of a store and a path that leaves the rest to be inferred.
    pub open spec fn new(object_store: Arc<S>, table_path: Seq<char>) -> Self {
        ListingTableConfigView { object_store, table_path, file_schema: None, options: None }
    }

    /// The same configuration with the given schema.
    pub open spec fn with_schema(self, schema: SchemaRef) -> Self {
        ListingTableConfigView { file_schema: Some(schema), ..self }
    }

    /// The same configuration with the given options.
    pub open spec fn with_listing_options(self, listing_options: ListingOptionsView<F>) -> Self {
        ListingTableConfigView { options: Some(listing_options), ..self }
    }
}

/// The options that `path` stands for: its suffix is that of the files and stands for their format,
/// and its folders name the partition columns. There are none if the suffix stands for no format.
pub open spec fn inferred_options<F: ?Sized>(path: Seq<char>, target_partitions: nat) -> Option<
    ListingOptionsView<F>,
> {
    match format_of::<F>(suffix_of(path)) {
        Some(format) => Some(
            ListingOptionsView {
                file_extension: suffix_of(path),
                format,
                table_partition_cols: partition_cols_of(path),
                collect_stat: true,
                target_partitions,
            },
        ),
        None => None,
    }
}

/// `error` says that no format could be inferred.
pub open spec fn is_suffix_error(error: DataFusionError) -> bool {
    error matches DataFusionError::Internal(message) && message@ == "Unable to infer file suffix"@
}

/// `result` and `after` are what inferring options for `target_partitions` partitions makes of the
/// configuration `before`.
pub open spec fn infer_options_step<S: ?Sized, F: ?Sized>(
    before: ListingTableConfigView<S, F>,
    target_partitions: nat,
    after: ListingTableConfigView<S, F>,
    result: Result<ListingOptions<F>, DataFusionError>,
) -> bool {
    match inferred_options::<F>(before.table_path, target_partitions) {
        Some(inferred) => {
            &&& result matches Ok(options)
            &&& options@ == inferred
            &&& after == before.with_listing_options(inferred)
        },
        None => {
            &&& result matches Err(error)
            &&& is_suffix_error(error)
            &&& after == before
        },
    }
}

impl<S: ?Sized, F: ?Sized> ListingTableConfig<S, F> {
    /// Creates new `ListingTableConfig`.  The `SchemaRef` and `ListingOptions` are inferred: the format
    /// and the file extension based on the suffix of the provided `table_path`, the partition columns
    /// based on its folders.
    pub fn new(object_store: Arc<S>, table_path: String) -> (config: Self)
        ensures
            config@ == ListingTableConfigView::<S, F>::new(object_store, table_path@),
    {
        ListingTableConfig { object_store, table_path, file_schema: None, options: None }
    }

    /// The same configuration with the given schema of the files.
    pub fn with_schema(self, schema: SchemaRef) -> (config: Self)
        ensures
            config@ == self@.with_schema(schema),
    {
        ListingTableConfig {
            object_store: self.object_store,
            table_path: self.table_path,
            file_schema: Some(schema),
            options: self.options,
        }
    }

    /// The same configuration with the given options.
    pub fn with_listing_options(self, listing_options: ListingOptions<F>) -> (config: Self)
        ensures
            config@ == self@.with_listing_options(listing_options@),
    {
        ListingTableConfig {
            object_store: self.object_store,
            table_path: self.table_path,
            file_schema: self.file_schema,
            options: Some(listing_options),
        }
    }

    /// Infers the options from the path, for as many partitions as there are CPUs, and keeps them in
    /// the configuration: the format from the suffix, the partition columns from the folders. Fails
    /// if the suffix stands for no format.
    pub fn infer_options(&mut self) -> (result: Result<ListingOptions<F>, DataFusionError>)
        ensures
            exists|cpus: usize|
                cpus >= 1 && #[trigger] call_ensures(num_cpus::get, (), cpus) && infer_options_step(
                    old(self)@,
                    cpus as nat,
                    final(self)@,
                    result,
                ),
    {
        let cpus: usize = num_cpus::get();
        self.infer_options_for(cpus)
    }

    /// Infers the options as `infer_options` does, for the given number of partitions.
    pub fn infer_options_for(&mut self, target_partitions: usize) -> (result: Result<
        ListingOptions<F>,
        DataFusionError,
    >)
        ensures
            infer_options_step(old(self)@, target_partitions as nat, final(self)@, result),
    {
        let file_type = infer_suffix(self.table_path.as_str());
        let format = match infer_format(&file_type) {
            Some(format) => format,
            None => {
                return Err(DataFusionError::Internal("Unable to infer file suffix".to_owned()));
            },
        };
        let table_partition_cols = infer_partition_cols(self.table_path.as_str());
        let listing_options = ListingOptions {
            format,
            collect_stat: true,
            file_extension: file_type,
            target_partitions,
            table_partition_cols,
        };
        self.options = Some(listing_options.clone());
        Ok(listing_options)
    }

    /// Infers the schema of the files, as `ListingOptions::infer_schema` does for the store and the
    /// path of the configuration, and keeps it in the configuration once it is there.
    pub fn infer_schema(&mut self, options: &ListingOptions<F>, event: SchemaEvent) -> (action:
        SchemaAction<S, F>)
        ensures
            infer_schema_step(
                options@,
                old(self)@.object_store,
                old(self)@.table_path,
                event,
                action,
            ),
            final(self)@ == match action {
                SchemaAction::Done(Ok(schema)) => old(self)@.with_schema(schema),
                _ => old(self)@,
            },
    {
        let action = options.infer_schema(
            Arc::clone(&self.object_store),
            self.table_path.as_str(),
            event,
        );
        if let SchemaAction::Done(Ok(schema)) = &action {
            self.file_schema = Some(Arc::clone(schema));
        }
        action
    }
}

} // verus!
