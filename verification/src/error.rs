//! The errors of the library.

use arrow::error::ArrowError;
use vstd::prelude::*;

verus! {

/// The error type of the `arrow` crate, opaque here.
#[verifier::external_type_specification]
#[verifier::external_body]
pub struct ExArrowError(arrow::error::ArrowError);

/// Why a table could not be created or scanned.
#[derive(Debug)]
pub enum DataFusionError {
    /// A schema operation of the `arrow` crate failed.
    ArrowError(ArrowError),
    /// The library could not go on.
    Internal(String),
    /// An object store, a file format or the engine failed, in its own words.
    External(String),
}

} // verus!
