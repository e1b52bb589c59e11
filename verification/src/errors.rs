//! The library error type.
use vstd::prelude::*;

use crate::api::{DriverError, DriverType};

verus! {

/// Errors of the library entry points.
#[derive(Debug, Clone, PartialEq, Eq)]
pub enum MicrovmiError {
    /// No suitable microvmi driver available.
    NoDriverAvailable,
    /// The driver has not been compiled.
    DriverNotCompiled(DriverType),
    /// The driver failed to initialize.
    Other(DriverError),
}

} // verus!
