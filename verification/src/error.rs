use vstd::prelude::*;

verus! {

/// The errors with which a request is answered.
#[derive(Debug, Clone, Copy, PartialEq, Eq, Structural)]
pub enum Error {
    UserNotFoundError,
    UserCreationError,
    DocumentNotFoundError,
    DocumentUpdateError,
    DocumentDeletionError,
    PermissionError,
    PermissionDeniedError,
}

/// A database statement that did not complete. What went wrong is not
/// looked at: every failure of one statement is answered alike.
#[derive(Debug, Clone, Copy, PartialEq, Eq, Structural)]
pub struct DbError;

} // verus!
