//! Options of a table, and inference of the schema of its files.

use crate::error::DataFusionError;
use crate::files::{FileMeta, SizedFile};
use crate::format::FileFormat;
use crate::schema::texts;
use arrow::datatypes::SchemaRef;
use std::sync::Arc;
use vstd::prelude::*;

verus! {

/// Options for creating a `ListingTable`
pub struct ListingOptions<F: ?Sized> {
    /// A suffix on which files should be filtered (leave empty to
    /// keep all files on the path)
    pub file_extension: String,
    /// The file format
    pub format: FileFormat<F>,
    /// The expected partition column names in the folder structure.
    /// For example `Vec["a", "b"]` means that the two first levels of
    /// partitioning expected should be named "a" and "b":
    /// - If there is a third level of partitioning it will be ignored.
    /// - Files that don't follow this partitioning will be ignored.
    /// All of these columns have the data type that `default_partition_column_datatype` gives.
    pub table_partition_cols: Vec<String>,
    /// Set true to try to guess statistics from the files.
    /// This can add a lot of overhead as it will usually require files
    /// to be opened and at least partially parsed.
    pub collect_stat: bool,
    /// Group files to avoid that the number of partitions exceeds
    /// this limit
    pub target_partitions: usize,
}

/// What options say.
pub struct ListingOptionsView<F: ?Sized> {
    pub file_extension: Seq<char>,
    pub format: FileFormat<F>,
    pub table_partition_cols: Seq<Seq<char>>,
    pub collect_stat: bool,
    pub target_partitions: nat,
}

impl<F: ?Sized> View for ListingOptions<F> {
    type V = ListingOptionsView<F>;

    open spec fn view(&self) -> ListingOptionsView<F> {
        ListingOptionsView {
            file_extension: self.file_extension@,
            format: self.format,
            table_partition_cols: texts(self.table_partition_cols@),
            collect_stat: self.collect_stat,
            target_partitions: self.target_partitions as nat,
        }
    }
}

impl<F: ?Sized> Clone for ListingOptions<F> {
    fn clone(&self) -> (options: Self)
        ensures
            options@ == self@,
    {
        let table_partition_cols = self.table_partition_cols.clone();
        assert(table_partition_cols@ =~= self.table_partition_cols@);
        ListingOptions {
            file_extension: self.file_extension.clone(),
            format: self.format.clone(),
            table_partition_cols,
            collect_stat: self.collect_stat,
            target_partitions: self.target_partitions,
        }
    }
}

/// What happens while a schema is inferred.
pub enum SchemaEvent {
    /// The inference starts.
    Start,
    /// The object store has answered the request for a listing.
    Listed(Result<(), DataFusionError>),
    /// The listing has yielded an entry, which the file format asked for.
    File(Result<FileMeta, DataFusionError>),
    /// The file format has answered the request for a schema.
    Inferred(Result<SchemaRef, DataFusionError>),
}

/// What is to be done next while a schema is inferred.
pub enum SchemaAction<S: ?Sized, F: ?Sized> {
    /// List the files of the store under `path` whose names end in `suffix`.
    ListFiles { object_store: Arc<S>, path: String, suffix: String },
    /// Ask the file format for the schema of the listed files.
    InferSchema { format: FileFormat<F> },
    /// Hand the file format a reader of this file.
    OpenReader { object_store: Arc<S>, file: SizedFile },
    /// Hand the file format this error in place of a reader.
    YieldError(DataFusionError),
    /// The inference is over.
    Done(Result<SchemaRef, DataFusionError>),
}

/// `action` is what `event` calls for while the schema of the files under `path` is inferred.
pub open spec fn infer_schema_step<S: ?Sized, F: ?Sized>(
    options: ListingOptionsView<F>,
    object_store: Arc<S>,
    path: Seq<char>,
    event: SchemaEvent,
    action: SchemaAction<S, F>,
) -> bool {
    match event {
        SchemaEvent::Start => {
            &&& action matches SchemaAction::ListFiles { object_store: s, path: p, suffix }
            &&& s == object_store
            &&& p@ == path
            &&& suffix@ == options.file_extension
        },
        SchemaEvent::Listed(Ok(_)) => action == (SchemaAction::<S, F>::InferSchema {
            format: options.format,
        }),
        SchemaEvent::Listed(Err(error)) => action == SchemaAction::<S, F>::Done(Err(error)),
        SchemaEvent::File(Ok(meta)) => action == (SchemaAction::<S, F>::OpenReader {
            object_store,
            file: meta.sized_file,
        }),
        SchemaEvent::File(Err(error)) => action == SchemaAction::<S, F>::YieldError(error),
        SchemaEvent::Inferred(result) => action == SchemaAction::<S, F>::Done(result),
    }
}

/// The options that `ListingOptions::new` gives.
pub open spec fn default_options<F: ?Sized>(format: FileFormat<F>) -> ListingOptionsView<F> {
    ListingOptionsView {
        file_extension: Seq::empty(),
        format,
        table_partition_cols: Seq::empty(),
        collect_stat: false,
        target_partitions: 1,
    }
}

impl<F: ?Sized> ListingOptions<F> {
    /// Creates an options instance with the given format
    /// Default values:
    /// - no file extension filter
    /// - no input partition to discover
    /// - one target partition
    /// - no stat collection
    pub fn new(format: FileFormat<F>) -> (options: Self)
        ensures
            options@ == default_options(format),
    {
        let table_partition_cols: Vec<String> = Vec::new();
        assert(texts(table_partition_cols@) =~= Seq::empty());
        ListingOptions {
            file_extension: String::new(),
            format,
            table_partition_cols,
            collect_stat: false,
            target_partitions: 1,
        }
    }

    /// Infer the schema of the files at the given path on the provided object store.
    /// The inferred schema does not include the partitioning columns.
    ///
    /// Says what `event` calls for: a listing of the files with the file extension, then a schema
    /// from the file format, which reads the listed files one by one; the first request that fails
    /// ends the inference.
    pub fn infer_schema<S: ?Sized>(&self, object_store: Arc<S>, path: &str, event: SchemaEvent) -> (action:
        SchemaAction<S, F>)
        ensures
            infer_schema_step(self@, object_store, path@, event, action),
    {
        match event {
            SchemaEvent::Start => SchemaAction::ListFiles {
                object_store,
                path: path.to_owned(),
                suffix: self.file_extension.clone(),
            },
            SchemaEvent::Listed(Ok(_)) => SchemaAction::InferSchema { format: self.format.clone() },
            SchemaEvent::Listed(Err(error)) => SchemaAction::Done(Err(error)),
            SchemaEvent::File(Ok(meta)) => SchemaAction::OpenReader {
                object_store,
                file: meta.sized_file,
            },
            SchemaEvent::File(Err(error)) => SchemaAction::YieldError(error),
            SchemaEvent::Inferred(result) => SchemaAction::Done(result),
        }
    }
}

} // verus!
