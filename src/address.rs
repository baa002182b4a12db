use std::str::FromStr;

use solana_program::pubkey::{ParsePubkeyError, Pubkey};
use vstd::prelude::*;

verus! {

/// A 32-byte account address, as used for mints, token accounts,
/// programs and signers.
#[derive(Clone, Copy, Debug)]
pub struct Address(pub [u8; 32]);

impl View for Address {
    type V = Seq<u8>;

    open spec fn view(&self) -> Seq<u8> {
        self.0@
    }
}

impl Address {
    /// The all-zero address, which an account holds before a key is written.
    pub fn zero() -> (r: Address)
        ensures
            r@ == Seq::new(32, |_i: int| 0u8),
    {
        let r = Address([0u8; 32]);
        assert(r@ =~= Seq::new(32, |_i: int| 0u8));
        r
    }

    /// The address with these bytes.
    pub fn new(bytes: [u8; 32]) -> (r: Address)
        ensures
            r@ == bytes@,
    {
        Address(bytes)
    }

    /// The address's bytes.
    pub fn to_bytes(&self) -> (r: [u8; 32])
        ensures
            r@ == self@,
    {
        self.0
    }
}

impl PartialEq for Address {
    fn eq(&self, o: &Address) -> (r: bool) {
        let mut i: usize = 0;
        while i < 32
            invariant
                i <= 32,
                forall|j: int| 0 <= j < i ==> self.0@[j] == o.0@[j],
            decreases 32 - i,
        {
            if self.0[i] != o.0[i] {
                return false;
            }
            i = i + 1;
        }
        assert(self.0@ =~= o.0@);
        true
    }
}

impl vstd::std_specs::cmp::PartialEqSpecImpl for Address {
    open spec fn obeys_eq_spec() -> bool {
        true
    }

    open spec fn eq_spec(&self, o: &Address) -> bool {
        self.0@ == o.0@
    }
}

impl Eq for Address {
}

/// The error `solana_program::pubkey::Pubkey::from_str` reports for a text
/// that is not an address; it is only passed along.
#[verifier::external_type_specification]
#[verifier::external_body]
pub struct ExParsePubkeyError(ParsePubkeyError);

/// The 32 bytes a base58 text stands for, or `None` when it does not
/// decode to exactly 32 bytes.
pub uninterp spec fn decoded_address(text: Seq<char>) -> Option<Seq<u8>>;

/// Relies on `FromStr for solana_program::pubkey::Pubkey`: a text longer
/// than 44 bytes is refused, otherwise it is base58-decoded and accepted
/// only when that yields 32 bytes.
#[verifier::external_body]
pub(crate) fn parse_address(text: &str) -> (r: Result<Address, ParsePubkeyError>)
    ensures
        match r {
            Ok(a) => decoded_address(text@) == Some(a@),
            Err(_) => decoded_address(text@) is None,
        },
        text@.len() > 44 ==> r is Err,
{
    match Pubkey::from_str(text) {
        Ok(key) => Ok(Address(key.to_bytes())),
        Err(e) => Err(e),
    }
}

} // verus!
