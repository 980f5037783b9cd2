//! Error types for this crate.
//!
//! Every fallible operation ends in a [`Result`], an alias for
//! [`core::result::Result`] with [`Error`] as the error type.
use vstd::prelude::*;

verus! {

/// Errors that can occur when using this crate.
#[derive(Debug, Clone, Copy, PartialEq, Eq, Structural)]
pub enum Error {
    /// The driver initiated a read operation that has failed.
    ReadError,
    /// The driver initiated a write operation that has failed.
    WriteError,
    /// The sensor's ID was invalid during initialization.
    InvalidId,
    /// The sensor was not ready during initialization.
    NotReady,
    /// The operation took too long to complete.
    Timeout,
    /// The set output data rate is incompatible with the oversampling settings.
    OdrInvalid,
    /// The lower bound of a pressure window was above its upper bound.
    InvalidMinMax,
    /// A value is outside of what the sensor's registers can hold.
    BadInput,
}

/// A specialised [`Result`](core::result::Result) type for this crate.
pub type Result<T> = core::result::Result<T, Error>;

} // verus!
