//! The resolver contract: its address, and what it answers before a chain
//! is asked.

use vstd::prelude::*;
use crate::hexcode::{hex_bytes, hex_decode, is_hex_text};
use crate::text::{chars_of, make_padded_hash, padded_hash, push_chars};
use crate::types::PhaseProof;

verus! {

/// Why a text is no address.
#[derive(Debug, Clone, Copy, PartialEq, Eq, Structural)]
pub enum AddressError {
    /// The text is not an even number of hexadecimal digits.
    NotHex,
    /// The text does not write 20 bytes.
    WrongLength,
}

/// A text without a leading `0x`.
pub open spec fn without_prefix(text: Seq<char>) -> Seq<char> {
    if text.len() >= 2 && text[0] == '0' && text[1] == 'x' {
        text.skip(2)
    } else {
        text
    }
}

/// The address that a text writes: 40 hexadecimal digits, with or without
/// a leading `0x`.
pub open spec fn spec_parse_address(text: Seq<char>) -> Result<Seq<u8>, AddressError> {
    let digits = without_prefix(text);
    if !is_hex_text(digits) {
        Err(AddressError::NotHex)
    } else if digits.len() != 40 {
        Err(AddressError::WrongLength)
    } else {
        Ok(hex_bytes(digits))
    }
}

/// Reads an address.
pub fn parse_address(text: &str) -> (parsed: Result<[u8; 20], AddressError>)
    ensures
        match parsed {
            Ok(address) => spec_parse_address(text@) == Ok::<Seq<u8>, AddressError>(address@),
            Err(error) => spec_parse_address(text@) == Err::<Seq<u8>, AddressError>(error),
        },
{
    let chars = chars_of(text);
    let from: usize = if chars.len() >= 2 && chars[0] == '0' && chars[1] == 'x' {
        2
    } else {
        0
    };
    let mut digits = String::new();
    push_chars(&mut digits, &chars, from);
    assert(digits@ =~= without_prefix(text@)) by {
        assert(chars@.skip(0) =~= chars@);
    }
    match hex_decode(digits.as_str()) {
        Ok(bytes) => {
            if bytes.len() != 20 {
                return Err(AddressError::WrongLength);
            }
            let mut address: [u8; 20] = [0u8; 20];
            let mut i: usize = 0;
            while i < 20
                invariant
                    i <= 20,
                    bytes@.len() == 20,
                    forall|k: int| 0 <= k < i ==> address@[k] == bytes@[k],
                decreases 20 - i,
            {
                address[i] = bytes[i];
                i = i + 1;
            }
            assert(address@ =~= bytes@);
            Ok(address)
        },
        Err(_) => Err(AddressError::NotHex),
    }
}

/// The resolver contract at an address.
pub struct VortexResolver {
    address: [u8; 20],
}

impl VortexResolver {
    /// The address of the contract.
    pub closed spec fn address(&self) -> Seq<u8> {
        self.address@
    }

    /// The resolver at the address that `address` writes.
    pub fn new(address: &str) -> (resolver: Result<VortexResolver, AddressError>)
        ensures
            match resolver {
                Ok(made) => spec_parse_address(address@) == Ok::<Seq<u8>, AddressError>(
                    made.address(),
                ),
                Err(error) => spec_parse_address(address@) == Err::<Seq<u8>, AddressError>(error),
            },
    {
        match parse_address(address) {
            Ok(bytes) => Ok(VortexResolver { address: bytes }),
            Err(error) => Err(error),
        }
    }

    /// The address of the contract.
    pub fn contract_address(&self) -> (address: [u8; 20])
        ensures
            address@ == self.address(),
    {
        self.address
    }

    /// Whether an action is resolvable: it stands at phase 9.
    pub fn resolve_action(&self, event_hash: &str, phase: u8) -> (resolvable: Result<bool, String>)
        ensures
            resolvable == Ok::<bool, String>(phase == 9),
    {
        Ok(phase == 9)
    }

    /// The witness record that the chain holds for an event: none yet.
    pub fn get_witness_record(&self, event_hash: &str) -> (record: Result<String, String>)
        ensures
            record matches Ok(text) && text@ == Seq::<char>::empty(),
    {
        Ok(String::new())
    }

    /// The hash under which a phase proof goes out: the padded hash of its
    /// event hash.
    pub fn submit_phase_proof(&self, proof_of_phase: &PhaseProof) -> (sent: Result<String, String>)
        ensures
            sent matches Ok(hash) && hash@ == padded_hash(proof_of_phase.event_hash@),
    {
        Ok(make_padded_hash(proof_of_phase.event_hash.as_str()))
    }
}

} // verus!
