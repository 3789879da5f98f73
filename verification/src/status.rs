//! Outcomes of store operations and the integer codes that report them.

use vstd::prelude::*;

verus! {

/// Code reported when an operation succeeded.
pub const STATUS_OK: i32 = 200;

/// Code reported when a name, key or field is empty.
pub const STATUS_INVALID: i32 = 400;

/// Code reported when a table, record or field that must exist is absent.
pub const STATUS_NOT_FOUND: i32 = 404;

/// Code reported when a table of the same name already exists.
pub const STATUS_CONFLICT: i32 = 409;

/// Why an operation was refused.
#[derive(Clone, Copy, Debug, PartialEq, Eq, Structural)]
pub enum StoreError {
    /// A table, record or field that must exist is absent.
    NotFound,
    /// A table of that name is already present.
    AlreadyExists,
    /// A table name, key or field name is empty.
    InvalidInput,
}

impl StoreError {
    /// The status code that stands for this error.
    pub open spec fn spec_code(self) -> i32 {
        match self {
            StoreError::NotFound => STATUS_NOT_FOUND,
            StoreError::AlreadyExists => STATUS_CONFLICT,
            StoreError::InvalidInput => STATUS_INVALID,
        }
    }

    /// The status code that stands for this error.
    #[verifier::when_used_as_spec(spec_code)]
    pub fn code(self) -> (c: i32)
        ensures
            c == self.spec_code(),
    {
        match self {
            StoreError::NotFound => STATUS_NOT_FOUND,
            StoreError::AlreadyExists => STATUS_CONFLICT,
            StoreError::InvalidInput => STATUS_INVALID,
        }
    }
}

/// The status code of a mutating operation's outcome: 200 on success, the
/// error's code otherwise.
pub open spec fn spec_status_of(outcome: Result<(), StoreError>) -> i32 {
    match outcome {
        Ok(_) => STATUS_OK,
        Err(e) => e.spec_code(),
    }
}

/// The status code that reports the outcome of a mutating operation.
#[verifier::when_used_as_spec(spec_status_of)]
pub fn status_of(outcome: Result<(), StoreError>) -> (c: i32)
    ensures
        c == spec_status_of(outcome),
{
    match outcome {
        Ok(_) => STATUS_OK,
        Err(e) => e.code(),
    }
}

} // verus!
