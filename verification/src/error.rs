use vstd::prelude::*;

verus! {

/// The closed set of failures that the crate's fallible operations report.
#[derive(Clone, Copy, Debug, PartialEq, Eq, Structural)]
pub enum Error {
    /// An underlying OS call failed.
    System,
    /// The segment name was rejected by the OS naming rules.
    InvalidPath,
    /// Reserved: a segment size could not be determined.
    NoSize,
    /// The segment size is incompatible with the requested element type.
    WrongSize,
}

} // verus!
