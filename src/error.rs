use vstd::prelude::*;

verus! {

/// The failures of the primitive readers and of the chunk parsers.
#[derive(Debug)]
pub enum CoreError {
    /// Fewer bytes remain than the item being read needs.
    UnexpectedEof,
    /// The bytes are present but do not form a valid item.
    InvalidData(String),
}

/// What kind of failure a parse meets, as the contracts speak of it.
pub enum Fault {
    /// The input ends too early: `CoreError::UnexpectedEof`.
    Truncated,
    /// The input holds a value that the format does not allow:
    /// `CoreError::InvalidData`.
    Malformed,
}

impl CoreError {
    pub open spec fn fault(&self) -> Fault {
        match self {
            CoreError::UnexpectedEof => Fault::Truncated,
            CoreError::InvalidData(_) => Fault::Malformed,
        }
    }
}

} // verus!
