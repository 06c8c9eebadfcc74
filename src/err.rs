use vstd::prelude::*;

verus! {

/// The ways a transaction operation can fail.
#[derive(Debug, Clone, Copy, PartialEq, Eq, Structural)]
pub enum Error {
    /// The transaction was already committed or cancelled.
    TxClosed,
    /// A write was attempted in a read-only transaction.
    TxNotWritable,
    /// `put` found the key already present.
    KeyAlreadyExists,
    /// `putc` or `delc` found a value other than the expected one.
    ValNotExpectedValue,
}

} // verus!
