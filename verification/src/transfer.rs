//! Deciding whether a transfer may go ahead.
//!
//! The checks run in a fixed order and the first that fails decides the
//! error: the destination's length, the destination's encoding, the amount's
//! form, the amount being more than nothing, and the balance covering it.

use vstd::prelude::*;
use vstd::utf8::encode_utf8;
use crate::address::{decode_address, decoded_address, MAX_ADDRESS_TEXT_BYTES};
use crate::amount::{parse_amount, parsed_amount};
use crate::errors::Error;

verus! {

/// The fewest bytes a destination text may have.
pub const MIN_DESTINATION_BYTES: usize = 32;

/// What the user asks for: where to send, how much, and the balance last
/// seen. The signing key is no part of it and never enters this crate.
#[derive(Debug, PartialEq, Eq)]
pub struct TransferRequest {
    /// The destination address as typed.
    pub destination: String,
    /// The amount of SOL as typed.
    pub amount_text: String,
    /// The balance in lamports, where one is known.
    pub known_balance: Option<u64>,
}

/// A transfer that passed every check.
#[derive(Debug, Clone, Copy, PartialEq, Eq)]
pub struct TransferOrder {
    /// The destination address.
    pub destination: [u8; 32],
    /// The lamports to send: never zero.
    pub lamports: u64,
}

/// The balance to check against: zero where none is known.
pub open spec fn balance_or_zero(known_balance: Option<u64>) -> u64 {
    match known_balance {
        Some(balance) => balance,
        None => 0,
    }
}

/// The verdict on a transfer, given what the destination decodes to.
pub open spec fn transfer_decision(
    destination: Seq<char>,
    decoded: Option<[u8; 32]>,
    amount_text: Seq<char>,
    known_balance: Option<u64>,
) -> Result<TransferOrder, Error> {
    if encode_utf8(destination).len() < MIN_DESTINATION_BYTES {
        Err(Error::InvalidPubKeyLen)
    } else if decoded is None {
        Err(Error::InvalidPubKeyLen)
    } else {
        match parsed_amount(amount_text) {
            Err(error) => Err(error),
            Ok(lamports) => if lamports == 0 {
                Err(Error::InvalidAmount)
            } else if balance_or_zero(known_balance) < lamports {
                Err(Error::InsufficientBalance)
            } else {
                Ok(TransferOrder { destination: decoded->0, lamports })
            },
        }
    }
}

/// Runs the checks on a request whose destination has been decoded already:
/// `decoded` is what the destination text decodes to.
pub fn check_transfer(request: &TransferRequest, decoded: Option<[u8; 32]>) -> (r: Result<
    TransferOrder,
    Error,
>)
    ensures
        r == transfer_decision(
            request.destination@,
            decoded,
            request.amount_text@,
            request.known_balance,
        ),
{
    if request.destination.as_str().as_bytes().len() < MIN_DESTINATION_BYTES {
        return Err(Error::InvalidPubKeyLen);
    }
    let destination = match decoded {
        Some(destination) => destination,
        None => {
            return Err(Error::InvalidPubKeyLen);
        },
    };
    let lamports = match parse_amount(request.amount_text.as_str()) {
        Ok(lamports) => lamports,
        Err(error) => {
            return Err(error);
        },
    };
    let balance = match request.known_balance {
        Some(balance) => balance,
        None => 0,
    };
    if lamports == 0 {
        Err(Error::InvalidAmount)
    } else if balance < lamports {
        Err(Error::InsufficientBalance)
    } else {
        Ok(TransferOrder { destination, lamports })
    }
}

/// Decides whether the requested transfer may go ahead, and with what.
///
/// The destination is decoded only where it is long enough to be looked at.
pub fn validate_transfer(request: &TransferRequest) -> (r: Result<TransferOrder, Error>)
    ensures
        r == transfer_decision(
            request.destination@,
            decoded_address(request.destination@),
            request.amount_text@,
            request.known_balance,
        ),
        r is Ok ==> MIN_DESTINATION_BYTES <= encode_utf8(request.destination@).len()
            <= MAX_ADDRESS_TEXT_BYTES,
        r is Ok ==> 0 < r->Ok_0.lamports <= balance_or_zero(request.known_balance),
{
    if request.destination.as_str().as_bytes().len() < MIN_DESTINATION_BYTES {
        return Err(Error::InvalidPubKeyLen);
    }
    let decoded = decode_address(request.destination.as_str());
    check_transfer(request, decoded)
}

/// A destination of fewer than thirty-two bytes is refused as such, whatever
/// it decodes to and whatever the amount and the balance are.
pub proof fn lemma_short_destination_rejected(
    destination: Seq<char>,
    decoded: Option<[u8; 32]>,
    amount_text: Seq<char>,
    known_balance: Option<u64>,
)
    requires
        encode_utf8(destination).len() < MIN_DESTINATION_BYTES,
    ensures
        transfer_decision(destination, decoded, amount_text, known_balance) == Err::<
            TransferOrder,
            Error,
        >(Error::InvalidPubKeyLen),
{
}

/// A destination that does not decode is refused in the same way.
pub proof fn lemma_undecodable_destination_rejected(
    destination: Seq<char>,
    amount_text: Seq<char>,
    known_balance: Option<u64>,
)
    ensures
        transfer_decision(destination, None, amount_text, known_balance) == Err::<
            TransferOrder,
            Error,
        >(Error::InvalidPubKeyLen),
{
}

/// An amount of nothing is never sent: with a destination that passes, the
/// error is `InvalidAmount`, whatever the balance.
pub proof fn lemma_zero_amount_rejected(
    destination: Seq<char>,
    decoded: Option<[u8; 32]>,
    amount_text: Seq<char>,
    known_balance: Option<u64>,
)
    requires
        parsed_amount(amount_text) == Ok::<u64, Error>(0),
    ensures
        transfer_decision(destination, decoded, amount_text, known_balance) is Err,
        encode_utf8(destination).len() >= MIN_DESTINATION_BYTES && decoded is Some
            ==> transfer_decision(destination, decoded, amount_text, known_balance) == Err::<
            TransferOrder,
            Error,
        >(Error::InvalidAmount),
{
}

/// The balance decides last: with a destination and an amount that pass, the
/// transfer goes ahead exactly where the known balance covers the amount, and
/// fails with `InsufficientBalance` where it does not. An unknown balance
/// covers nothing.
pub proof fn lemma_balance_decides(
    destination: Seq<char>,
    decoded: [u8; 32],
    amount_text: Seq<char>,
    lamports: u64,
    known_balance: Option<u64>,
)
    requires
        encode_utf8(destination).len() >= MIN_DESTINATION_BYTES,
        parsed_amount(amount_text) == Ok::<u64, Error>(lamports),
        lamports > 0,
    ensures
        transfer_decision(destination, Some(decoded), amount_text, known_balance) == (
        if balance_or_zero(known_balance) < lamports {
            Err::<TransferOrder, Error>(Error::InsufficientBalance)
        } else {
            Ok::<TransferOrder, Error>(TransferOrder { destination: decoded, lamports })
        }),
{
}

} // verus!
