use vstd::prelude::*;

verus! {

/// The failures an operation can report.
///
/// `NotFound` means the path could not be opened at all; `Parse` means the
/// file opened but its container format could not be interpreted; `Save`
/// means the in-memory mutation succeeded but persisting it to disk failed.
/// An unsupported tag type during a batched write is deliberately *not* an
/// error: it is a non-fatal, per-tag condition and the batch continues.
#[derive(Clone, Debug, PartialEq)]
pub enum TaggyError {
    NotFound,
    Parse(String),
    Save(String),
}

impl TaggyError {
    /// A human-readable description of the failure.
    pub fn message(&self) -> (r: String)
        ensures
            self is NotFound ==> r@ == "The file path does not exist!"@,
            self matches TaggyError::Parse(m) ==> r@ == m@,
            self matches TaggyError::Save(m) ==> r@ == m@,
    {
        match self {
            TaggyError::NotFound => "The file path does not exist!".to_owned(),
            TaggyError::Parse(m) => m.clone(),
            TaggyError::Save(m) => m.clone(),
        }
    }
}

} // verus!
