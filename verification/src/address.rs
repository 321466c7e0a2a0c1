//! Fixed-length public identifiers of accounts and programs.

use vstd::prelude::*;
use crate::encoding::{base58_bytes, base58_text, decode_base58, encode_base58};

verus! {

/// A 32-byte public identifier. Only its format is checked: the bytes need
/// not be a point of the curve.
#[derive(Debug, Clone, Copy, PartialEq, Eq)]
pub struct Address {
    pub bytes: [u8; 32],
}

impl View for Address {
    type V = Seq<u8>;

    open spec fn view(&self) -> Seq<u8> {
        self.bytes@
    }
}

/// The bytes that an address text stands for: what it decodes to in base58,
/// where that is exactly 32 bytes.
pub open spec fn address_bytes(text: Seq<char>) -> Option<Seq<u8>> {
    match base58_bytes(text) {
        Some(bytes) => if bytes.len() == 32 {
            Some(bytes)
        } else {
            None
        },
        None => None,
    }
}

/// The bytes of the token program's address,
/// `TokenkegQfeZyiNwAJbNbGKPFXCWuBvf9Ss623VQ5DA`.
pub open spec fn token_program_bytes() -> Seq<u8> {
    seq![
        6u8, 221u8, 246u8, 225u8, 215u8, 101u8, 161u8, 147u8,
        217u8, 203u8, 225u8, 70u8, 206u8, 235u8, 121u8, 172u8,
        28u8, 180u8, 133u8, 237u8, 95u8, 91u8, 55u8, 145u8,
        58u8, 140u8, 245u8, 133u8, 126u8, 255u8, 0u8, 169u8,
    ]
}

/// The bytes of the rent sysvar's address,
/// `SysvarRent111111111111111111111111111111111`.
pub open spec fn rent_sysvar_bytes() -> Seq<u8> {
    seq![
        6u8, 167u8, 213u8, 23u8, 25u8, 44u8, 92u8, 81u8,
        33u8, 140u8, 201u8, 76u8, 61u8, 74u8, 241u8, 127u8,
        88u8, 218u8, 238u8, 8u8, 155u8, 161u8, 253u8, 68u8,
        227u8, 219u8, 217u8, 138u8, 0u8, 0u8, 0u8, 0u8,
    ]
}

/// The address of the token program.
pub fn token_program_id() -> (res: Address)
    ensures
        res@ == token_program_bytes(),
{
    let res = Address {
        bytes: [
            6u8, 221u8, 246u8, 225u8, 215u8, 101u8, 161u8, 147u8,
            217u8, 203u8, 225u8, 70u8, 206u8, 235u8, 121u8, 172u8,
            28u8, 180u8, 133u8, 237u8, 95u8, 91u8, 55u8, 145u8,
            58u8, 140u8, 245u8, 133u8, 126u8, 255u8, 0u8, 169u8,
        ],
    };
    assert(res@ =~= token_program_bytes());
    res
}

/// The address of the rent sysvar.
pub fn rent_sysvar_id() -> (res: Address)
    ensures
        res@ == rent_sysvar_bytes(),
{
    let res = Address {
        bytes: [
            6u8, 167u8, 213u8, 23u8, 25u8, 44u8, 92u8, 81u8,
            33u8, 140u8, 201u8, 76u8, 61u8, 74u8, 241u8, 127u8,
            88u8, 218u8, 238u8, 8u8, 155u8, 161u8, 253u8, 68u8,
            227u8, 219u8, 217u8, 138u8, 0u8, 0u8, 0u8, 0u8,
        ],
    };
    assert(res@ =~= rent_sysvar_bytes());
    res
}

impl Address {
    /// The address whose bytes are `bytes`, where there are exactly 32.
    pub fn from_bytes(bytes: &[u8]) -> (res: Option<Address>)
        ensures
            res is Some <==> bytes@.len() == 32,
            res matches Some(a) ==> a@ == bytes@,
    {
        if bytes.len() != 32 {
            return None;
        }
        let mut out = [0u8; 32];
        let mut i: usize = 0;
        while i < 32
            invariant
                i <= 32,
                bytes@.len() == 32,
                forall|j: int| 0 <= j < i ==> out@[j] == bytes@[j],
            decreases 32 - i,
        {
            out[i] = bytes[i];
            i += 1;
        }
        let res = Address { bytes: out };
        assert(res@ =~= bytes@);
        Some(res)
    }

    /// Reads an address from its base58 text. `None` where the text is not
    /// base58 or does not stand for exactly 32 bytes.
    pub fn from_text(text: &str) -> (res: Option<Address>)
        ensures
            match res {
                Some(a) => address_bytes(text@) == Some(a@),
                None => address_bytes(text@) is None,
            },
    {
        match decode_base58(text) {
            Ok(bytes) => Address::from_bytes(bytes.as_slice()),
            Err(_) => None,
        }
    }

    /// The base58 text of the address. `from_text` reads it back.
    pub fn to_text(&self) -> (text: String)
        ensures
            text@ == base58_text(self@),
            address_bytes(text@) == Some(self@),
    {
        encode_base58(self.bytes.as_slice())
    }

    pub fn to_bytes(&self) -> (res: [u8; 32])
        ensures
            res@ == self@,
    {
        self.bytes
    }
}

} // verus!
