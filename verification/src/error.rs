use vstd::prelude::*;

verus! {

/// Rejection codes of the validator.
///
/// Every check of the create and update paths is total: the first failing
/// check decides the verdict and nothing after it runs. `ItemMissing` is
/// reserved for the surrounding ledger runtime, for a query that could not
/// resolve a referenced cell at all; the verified checks never produce it.
#[derive(Clone, Copy, Debug, PartialEq, Eq, Structural)]
pub enum Error {
    /// The executing or consumed script's binding argument is empty, or the
    /// consumed and executing arguments differ.
    InvalidArgument,
    /// Consumed-side cardinality for this identity is not exactly one.
    InvalidInput,
    /// Produced-side cardinality for this identity is not exactly one.
    InvalidOutput,
    /// A record payload is not exactly five bytes long.
    InvalidCellData,
    /// At creation the slot index is out of range; at update it changed.
    InvalidTimeIndex,
    /// The updated timestamp falls outside the accepted window.
    InvalidTimestamp,
    /// A consumed cell's relative-time-lock value is not the required one.
    InvalidTimeSince,
    /// The ledger runtime could not resolve a referenced cell.
    ItemMissing,
}

impl Error {
    /// The exit code that the on-chain runtime reports for this rejection.
    pub fn code(&self) -> (c: i8)
        ensures
            c == (match *self {
                Error::ItemMissing => 2i8,
                Error::InvalidArgument => 54i8,
                Error::InvalidCellData => 55i8,
                Error::InvalidInput => 56i8,
                Error::InvalidOutput => 57i8,
                Error::InvalidTimeSince => 58i8,
                Error::InvalidTimestamp => 59i8,
                Error::InvalidTimeIndex => 60i8,
            }),
    {
        match *self {
            Error::ItemMissing => 2,
            Error::InvalidArgument => 54,
            Error::InvalidCellData => 55,
            Error::InvalidInput => 56,
            Error::InvalidOutput => 57,
            Error::InvalidTimeSince => 58,
            Error::InvalidTimestamp => 59,
            Error::InvalidTimeIndex => 60,
        }
    }
}

} // verus!
