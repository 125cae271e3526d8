//! File formats, and the suffixes that stand for them.

use std::sync::Arc;
use vstd::prelude::*;

verus! {

/// How the files of a table are encoded: one of the formats that are built in, with its default
/// settings, or one that is supplied from outside. `F` is the type of the latter.
pub enum FileFormat<F: ?Sized> {
    Avro,
    Csv,
    Json,
    Parquet,
    Custom(Arc<F>),
}

impl<F: ?Sized> Clone for FileFormat<F> {
    fn clone(&self) -> (format: Self)
        ensures
            format == *self,
    {
        match self {
            FileFormat::Avro => FileFormat::Avro,
            FileFormat::Csv => FileFormat::Csv,
            FileFormat::Json => FileFormat::Json,
            FileFormat::Parquet => FileFormat::Parquet,
            FileFormat::Custom(format) => FileFormat::Custom(Arc::clone(format)),
        }
    }
}

/// The format that a suffix stands for, if any.
pub open spec fn format_of<F: ?Sized>(suffix: Seq<char>) -> Option<FileFormat<F>> {
    if suffix == "avro"@ {
        Some(FileFormat::Avro)
    } else if suffix == "csv"@ {
        Some(FileFormat::Csv)
    } else if suffix == "json"@ {
        Some(FileFormat::Json)
    } else if suffix == "parquet"@ {
        Some(FileFormat::Parquet)
    } else {
        None
    }
}

/// The format that `suffix` stands for, if any.
pub(crate) fn infer_format<F: ?Sized>(suffix: &String) -> (format: Option<FileFormat<F>>)
    ensures
        format == format_of::<F>(suffix@),
{
    if *suffix == "avro".to_owned() {
        Some(FileFormat::Avro)
    } else if *suffix == "csv".to_owned() {
        Some(FileFormat::Csv)
    } else if *suffix == "json".to_owned() {
        Some(FileFormat::Json)
    } else if *suffix == "parquet".to_owned() {
        Some(FileFormat::Parquet)
    } else {
        None
    }
}

} // verus!
