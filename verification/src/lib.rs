//! Verified core of a small Solana wallet: reading a typed amount of SOL as
//! lamports, deciding whether a transfer may go ahead, and steering an
//! accepted transfer from blockhash to finality.

pub mod address;
pub mod amount;
pub mod errors;
pub mod flow;
pub mod numeral;
pub mod text;
pub mod trace;
pub mod transfer;
pub mod wallet;

pub use errors::Error;
