use vstd::prelude::*;

verus! {

/// Every way an operation on the escrow record can be refused.
#[derive(Clone, Copy, Debug, PartialEq, Eq, Structural)]
pub enum GameError {
    /// An instruction payload or an account's data has the wrong length or shape.
    MalformedInput,
    /// An arithmetic result does not fit in 64 bits.
    Overflow,
    /// The record is terminal: it has been sold or closed.
    Inactive,
    /// The price the buyer claims is not the price the record holds.
    PriceMismatch,
    /// The buyer's funding account holds less than the settlement amount.
    InsufficientFunds,
    /// The buyer did not sign, or is not on the whitelist.
    Unauthorized,
    /// The leading tag byte names no instruction.
    UnknownInstruction,
    /// The token transfer was rejected.
    TransferFailed,
    /// The bytes of a record do not follow the record layout.
    Malformed,
    /// The destination buffer is shorter than a record.
    BufferTooSmall,
    /// The unset identity stands where a participant's identity is required.
    UninitializedParticipant,
}

} // verus!
