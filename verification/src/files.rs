//! The files of a table and their statistics.

use vstd::prelude::*;

verus! {

/// A file of an object store.
#[derive(Debug, PartialEq, Eq)]
pub struct SizedFile {
    /// Path of the file within the store.
    pub path: String,
    /// Size of the file in bytes.
    pub size: u64,
}

impl Clone for SizedFile {
    fn clone(&self) -> (file: SizedFile)
        ensures
            file == *self,
    {
        SizedFile { path: self.path.clone(), size: self.size }
    }
}

/// What an object store tells of a file when it lists it.
#[derive(Debug, PartialEq, Eq)]
pub struct FileMeta {
    /// The file.
    pub sized_file: SizedFile,
}

/// A file together with the values that the folders it lies in give to the partition columns.
#[derive(Debug, PartialEq, Eq)]
pub struct PartitionedFile {
    /// The file.
    pub file_meta: FileMeta,
    /// The value of each partition column, in the order of the columns.
    pub partition_values: Vec<String>,
}

/// Statistics of one column. What is not known is `None`.
#[derive(Debug, PartialEq, Eq)]
pub struct ColumnStatistics {
    pub null_count: Option<usize>,
    pub max_value: Option<String>,
    pub min_value: Option<String>,
    pub distinct_count: Option<usize>,
}

/// Statistics of a file or of several. What is not known is `None`.
#[derive(Debug, PartialEq, Eq)]
pub struct Statistics {
    pub num_rows: Option<usize>,
    pub total_byte_size: Option<usize>,
    pub column_statistics: Option<Vec<ColumnStatistics>>,
    /// Whether the numbers are exact rather than estimates.
    pub is_exact: bool,
}

/// Statistics that tell nothing.
pub open spec fn no_statistics() -> Statistics {
    Statistics {
        num_rows: None,
        total_byte_size: None,
        column_statistics: None,
        is_exact: false,
    }
}

impl Default for Statistics {
    fn default() -> (statistics: Statistics)
        ensures
            statistics == no_statistics(),
    {
        Statistics {
            num_rows: None,
            total_byte_size: None,
            column_statistics: None,
            is_exact: false,
        }
    }
}

} // verus!
