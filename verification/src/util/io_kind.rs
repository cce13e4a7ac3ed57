//! The kinds of I/O failure that the application tells apart.

use vstd::prelude::*;

verus! {

/// Kind of an I/O error, as far as the application's decisions go.
#[derive(Debug, Clone, Copy, PartialEq, Eq, Structural)]
pub enum IoErrorKind {
    /// The file or program does not exist.
    NotFound,
    /// The process may not access the file or run the program.
    PermissionDenied,
    /// Any other kind.
    Other,
}

} // verus!
