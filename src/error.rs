use vstd::prelude::*;

verus! {

/// Why a handler refused to run. Every failure leaves all accounts as they were.
#[derive(Clone, Copy, Debug, PartialEq, Eq, Structural)]
pub enum CustomError {
    /// The slot handed to initialization already holds data.
    AlreadyInitialized,
    /// The payer's balance does not cover the storage of a new record.
    InsufficientFunds,
    /// A principal that had to authorize the call did not sign it.
    MissingSignature,
    /// The signer is not the owner stored in the record.
    Unauthorized,
    /// The account's bytes are not a record of this program.
    MalformedRecord,
}

} // verus!
