//! The failures that the library reports.

use crate::env::Environment;
use vstd::prelude::*;

verus! {

/// Everything that can go wrong while configuring a cursor or talking to the
/// remote table.
#[derive(Debug, Clone, Copy, PartialEq, Eq, Structural)]
pub enum GlideError {
    /// Neither a bearer token nor a complete user name / password pair is
    /// configured.
    NoApiCredentialsFound,
    /// No instance host is configured.
    NoSnowInstanceFound,
    /// The transport could not deliver a batch request.
    FailedToFetchBatch,
    /// A batch response body did not have the expected shape.
    FailedToDeserializeBatch,
    /// A table name could not be extracted.
    FailedToParseTableName,
    /// A record could not be serialized.
    FailedToSerializeJson,
    /// A reference points at a record that the remote table does not hold.
    RecordNotFound,
}

/// A configurable item that reads its settings from named variables and has
/// an error of its own for a variable that is not set.
pub trait VarOrErr {
    /// The value of `var_name` in `env`, or this item's error.
    fn var_or_err(env: &Environment, var_name: &str) -> Result<String, GlideError>;
}

/// A result with its success value replaced by that value's view.
pub open spec fn view_of<T: View>(r: Result<T, GlideError>) -> Result<T::V, GlideError> {
    match r {
        Ok(v) => Ok(v@),
        Err(e) => Err(e),
    }
}

} // verus!
