use vstd::prelude::*;
use crate::errors::common::CommonError;

verus! {

/// How a query for one row of the users table failed.
pub enum LookupError {
    /// No row matched.
    NotFound,
    /// The database failed; with the failure's debug description.
    Failed(String),
}

/// The result of a query for one row: the row, none when no row matched,
/// or a system error `Database error: <description>`.
pub fn lookup_result<T>(result: Result<T, LookupError>) -> (r: Result<Option<T>, CommonError>)
    ensures
        match result {
            Ok(v) => r == Ok::<Option<T>, CommonError>(Some(v)),
            Err(LookupError::NotFound) => r == Ok::<Option<T>, CommonError>(None),
            Err(LookupError::Failed(d)) => r matches Err(CommonError::Error(m)) && m@ == "Database error: "@ + d@,
        },
{
    match result {
        Ok(v) => Ok(Some(v)),
        Err(LookupError::NotFound) => Ok(None),
        Err(LookupError::Failed(d)) => Err(CommonError::Error(crate::common::text::concat2("Database error: ", d.as_str()))),
    }
}

} // verus!
