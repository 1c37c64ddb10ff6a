//! The shared error taxonomy.
//!
//! Every failure that crosses the crate's boundary is one of three kinds:
//! the engine could not be constructed, a script or function call failed,
//! or a value refused to narrow to the requested host type. Each backend
//! classifies its native errors into exactly these kinds, and the native
//! error's display text is preserved as the detail string.

use vstd::prelude::*;

verus! {

/// Error type for this crate.
#[non_exhaustive]
#[derive(Clone, Debug, PartialEq, Eq)]
pub enum Error {
    /// Error on js context creation.
    JsInitError(String),
    /// Error on js execution.
    JsExecError(String),
    /// Error on js value conversion.
    JsValueError(String),
}

impl Error {
    /// The detail text carried by the error, whatever its kind.
    pub fn detail(&self) -> (d: &String)
        ensures
            *self matches Error::JsInitError(s) ==> d == s,
            *self matches Error::JsExecError(s) ==> d == s,
            *self matches Error::JsValueError(s) ==> d == s,
    {
        match self {
            Error::JsInitError(s) => s,
            Error::JsExecError(s) => s,
            Error::JsValueError(s) => s,
        }
    }

    /// An exact copy, usable where a caller must hand the same error out twice.
    pub fn duplicate(&self) -> (r: Error)
        ensures
            r == *self,
    {
        match self {
            Error::JsInitError(s) => Error::JsInitError(s.clone()),
            Error::JsExecError(s) => Error::JsExecError(s.clone()),
            Error::JsValueError(s) => Error::JsValueError(s.clone()),
        }
    }
}

/// Whether the error carries a non-empty detail string.
pub open spec fn has_detail(e: Error) -> bool {
    match e {
        Error::JsInitError(d) => d@.len() > 0,
        Error::JsExecError(d) => d@.len() > 0,
        Error::JsValueError(d) => d@.len() > 0,
    }
}

/// Wrap a detail string as an initialization failure.
pub fn init_error(detail: String) -> (r: Error)
    ensures
        r == Error::JsInitError(detail),
{
    Error::JsInitError(detail)
}

/// Wrap a detail string as an execution failure.
pub fn exec_error(detail: String) -> (r: Error)
    ensures
        r == Error::JsExecError(detail),
{
    Error::JsExecError(detail)
}

/// Wrap a detail string as a value-conversion failure.
pub fn value_error(detail: String) -> (r: Error)
    ensures
        r == Error::JsValueError(detail),
{
    Error::JsValueError(detail)
}

} // verus!
