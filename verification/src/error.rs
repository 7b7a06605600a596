use vstd::prelude::*;

verus! {

/// The classes of failure that the session tells apart.
#[derive(Clone, Copy, Debug, PartialEq, Eq, Structural)]
pub enum ErrorKind {
    /// A command word that is not known.
    NotFound,
    /// An index that is no number or names no task, or an empty title.
    InvalidInput,
    /// Stored data that cannot be read.
    InvalidData,
    /// A date that cannot be read, or one that is not in the future.
    Unsupported,
}

} // verus!
