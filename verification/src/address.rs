//! Account addresses: thirty-two bytes, written in base 58.

use std::str::FromStr;
use vstd::prelude::*;
use vstd::string::StringSliceAdditionalSpecFns;

verus! {

/// The number of bytes in an address.
pub const ADDRESS_BYTES: usize = 32;

/// The longest text, in bytes, that the decoder looks at.
pub const MAX_ADDRESS_TEXT_BYTES: usize = 44;

/// The address that `solana_sdk::pubkey::Pubkey::from_str` reads out of
/// `text`, or `None` where it reads none. The decoder is a function of the
/// text alone; this crate takes its word for what base 58 is.
pub uninterp spec fn decoded_address(text: Seq<char>) -> Option<[u8; 32]>;

/// Decodes a base-58 address with `solana_sdk::pubkey::Pubkey::from_str`.
///
/// Not proved, but taken from that function's source: the result depends on
/// the text alone, and a text of more than forty-four bytes is turned down
/// before any decoding.
#[verifier::external_body]
pub(crate) fn decode_address(text: &str) -> (address: Option<[u8; 32]>)
    ensures
        address == decoded_address(text@),
        text.spec_bytes().len() > MAX_ADDRESS_TEXT_BYTES ==> address is None,
{
    match solana_sdk::pubkey::Pubkey::from_str(text) {
        Ok(key) => Some(key.to_bytes()),
        Err(_) => None,
    }
}

} // verus!
