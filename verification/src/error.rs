use vstd::prelude::*;

verus! {

/// The errors the library reports. `InvalidRoot`: the path a repository
/// was asked to bind to does not exist or is not a directory. `NotFound`:
/// an index into a document set names no document.
#[derive(Clone, Copy, PartialEq, Eq, Structural, Debug)]
pub enum ExplorerError {
    InvalidRoot,
    NotFound,
}

impl ExplorerError {
    /// A one-line description of the error, for reporting at the edge of
    /// the system.
    pub fn describe(&self) -> (r: &'static str)
        ensures
            *self is InvalidRoot ==> r@ == "the root path does not exist or is not a directory"@,
            *self is NotFound ==> r@ == "no document at this index"@,
    {
        match self {
            ExplorerError::InvalidRoot => "the root path does not exist or is not a directory",
            ExplorerError::NotFound => "no document at this index",
        }
    }
}

} // verus!
