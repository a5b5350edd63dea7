use vstd::prelude::*;

verus! {

/// Everything that can go wrong between picking a keypair file and seeing a
/// transfer finalized.
#[derive(Debug, Clone, Copy, PartialEq, Eq, Structural)]
pub enum Error {
    /// The file dialog was dismissed without a choice.
    DialogClosed,
    /// The node did not report the account balance.
    FetchBalanceError,
    /// The chosen file is not a JSON keypair file.
    InvalidFileType,
    /// The node did not hand out a recent blockhash.
    FetchBlockhashError,
    /// Submitting the transaction, or waiting for its finality, failed.
    TransactionError,
    /// The amount is malformed, zero, or beyond the 64-bit range.
    InvalidAmount,
    /// The destination is too short, or not an address at all.
    InvalidPubKeyLen,
    /// The known balance does not cover the amount.
    InsufficientBalance,
}

} // verus!
