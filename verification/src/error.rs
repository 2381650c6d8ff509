use vstd::prelude::*;

verus! {

/// The error taxonomy of the library.
///
/// `TesseractNotFoundError` covers both a discovery that exhausted every
/// search location and a resolved path that could not be spawned after all.
/// `CommandExitStatusError` carries the stringified exit status and the
/// captured standard-error text of a child process that ran and failed.
#[derive(Debug, Clone, PartialEq, Eq)]
pub enum TessError {
    TesseractNotFoundError,
    CommandExitStatusError(String, String),
}

pub type TessResult<T> = Result<T, TessError>;

} // verus!
