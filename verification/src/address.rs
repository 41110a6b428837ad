//! The fixed-length account identifier used throughout the library.

use std::str::FromStr;

use vstd::prelude::*;

verus! {

/// Number of bytes in an account identifier.
pub const ADDRESS_LEN: usize = 32;

/// A fixed-length identifier for an account: a wallet, a program, a pool
/// or a token mint. Immutable value type; equality is byte-wise.
#[derive(Clone, Copy, Debug)]
pub struct Address {
    bytes: [u8; 32],
}

impl View for Address {
    type V = Seq<u8>;

    closed spec fn view(&self) -> Seq<u8> {
        self.bytes@
    }
}

impl Address {
    /// Wraps raw identifier bytes.
    pub fn new(bytes: [u8; 32]) -> (r: Address)
        ensures
            r@ == bytes@,
    {
        Address { bytes }
    }

    /// Returns the raw identifier bytes.
    pub fn to_bytes(&self) -> (r: [u8; 32])
        ensures
            r@ == self@,
    {
        self.bytes
    }

    /// Byte-wise equality of two identifiers.
    pub fn same_as(&self, other: &Address) -> (r: bool)
        ensures
            r <==> self@ =~= other@,
    {
        let mut i: usize = 0;
        while i < 32
            invariant
                0 <= i <= 32,
                self@.len() == 32,
                other@.len() == 32,
                forall|j: int| 0 <= j < i ==> self@[j] == other@[j],
            decreases 32 - i,
        {
            if self.bytes[i] != other.bytes[i] {
                return false;
            }
            i += 1;
        }
        true
    }
}

/// The identifier bytes that the ledger's textual address encoding
/// assigns to a string; empty when the string is not a well-formed
/// address.
pub uninterp spec fn parsed_address_of(s: Seq<char>) -> Option<Seq<u8>>;

/// Relies on solana_program's Pubkey::from_str: a pure decode of the
/// textual address encoding, so success and the decoded bytes are a
/// function of the characters alone.
#[verifier::external_body]
pub(crate) fn parse_address(s: &str) -> (r: Option<Address>)
    ensures
        r is Some <==> parsed_address_of(s@) is Some,
        r matches Some(a) ==> parsed_address_of(s@) == Some(a@),
{
    match solana_program::pubkey::Pubkey::from_str(s) {
        Ok(pk) => Some(Address { bytes: pk.to_bytes() }),
        Err(_) => None,
    }
}

} // verus!
