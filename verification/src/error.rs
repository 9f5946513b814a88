//! The errors of the library.
use vstd::prelude::*;

use arrow::error::ArrowError;
use datafusion_common::DataFusionError;

verus! {

/// The error type of the `datafusion-common` crate.
#[verifier::external_type_specification]
#[verifier::external_body]
pub struct ExDataFusionError(DataFusionError);

/// Why planning or showing failed.
pub enum PlanError {
    /// A value of a batch could not be formatted.
    Arrow(ArrowError),
    /// A schema could not be built.
    DataFusion(DataFusionError),
}

} // verus!
