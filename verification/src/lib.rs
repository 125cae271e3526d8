//! Tables whose rows lie in the files of an object store.
//!
//! The library decides how a table is created from its configuration and how a scan over it is
//! planned. It does no I/O: where files have to be listed or read, a function says what is to be
//! done next, and is called again with what came of it.

pub mod config;
pub mod config_laws;
pub mod error;
pub mod expr;
pub mod files;
pub mod format;
pub mod grouping;
pub mod laws;
pub mod options;
pub mod path;
pub mod scan;
pub mod scan_laws;
pub mod schema;
pub mod table;
pub mod table_laws;
pub mod value_laws;

pub use config::ListingTableConfig;
pub use options::ListingOptions;
pub use table::ListingTable;
