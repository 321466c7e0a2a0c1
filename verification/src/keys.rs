//! Ed25519 key material: fresh keypairs, and keypairs read back from their
//! encoded secret.

use vstd::prelude::*;
use crate::address::Address;
use crate::encoding::{base58_bytes, decode_base58};
use crate::error::ApiError;

verus! {

/// The public key that the `solana_sdk` keypair built from the 32-byte
/// `seed` reports.
pub uninterp spec fn ed25519_public_key(seed: Seq<u8>) -> Seq<u8>;

/// Whether `bytes` encode a keypair: 64 bytes, the seed followed by the
/// public key of that seed.
pub open spec fn valid_keypair_bytes(bytes: Seq<u8>) -> bool {
    bytes.len() == 64 && bytes.subrange(32, 64) == ed25519_public_key(bytes.subrange(0, 32))
}

/// The keypair bytes that a secret text stands for: what it decodes to in
/// base58, where that is a valid keypair encoding.
pub open spec fn secret_bytes(text: Seq<char>) -> Option<Seq<u8>> {
    match base58_bytes(text) {
        Some(bytes) => if valid_keypair_bytes(bytes) {
            Some(bytes)
        } else {
            None
        },
        None => None,
    }
}

/// A public address with the seed it was derived from, held as the 64 bytes
/// seed ‖ public key.
#[derive(Debug)]
pub struct KeyPair {
    bytes: [u8; 64],
}

impl View for KeyPair {
    type V = Seq<u8>;

    closed spec fn view(&self) -> Seq<u8> {
        self.bytes@
    }
}

/// Calls `Keypair::new().to_bytes()`. Trusted: the 64 bytes are a seed
/// followed by the public key that the keypair of that seed reports. Which
/// seed is drawn is left open.
#[verifier::external_body]
fn fresh_keypair_bytes() -> (res: [u8; 64])
    ensures
        res@.subrange(32, 64) == ed25519_public_key(res@.subrange(0, 32)),
{
    solana_sdk::signature::Keypair::new().to_bytes()
}

/// Calls `Keypair::try_from` on a byte slice. Trusted: it accepts exactly
/// the slices of 64 bytes whose second half is the public key derived from
/// the first half.
#[verifier::external_body]
fn keypair_bytes_accepted(bytes: &[u8]) -> (res: bool)
    ensures
        res == (bytes@.len() == 64 && bytes@.subrange(32, 64) == ed25519_public_key(
            bytes@.subrange(0, 32),
        )),
{
    solana_sdk::signature::Keypair::try_from(bytes).is_ok()
}

impl KeyPair {
    #[verifier::type_invariant]
    spec fn wf(&self) -> bool {
        valid_keypair_bytes(self.bytes@)
    }

    /// A new keypair from the system's secure randomness.
    pub fn generate() -> (res: KeyPair)
        ensures
            valid_keypair_bytes(res@),
    {
        KeyPair { bytes: fresh_keypair_bytes() }
    }

    /// The keypair whose encoding is `bytes`, or `InvalidSecret` where they
    /// are not 64 bytes or the public half does not belong to the seed.
    pub fn from_bytes(bytes: &[u8]) -> (res: Result<KeyPair, ApiError>)
        ensures
            match res {
                Ok(kp) => valid_keypair_bytes(bytes@) && kp@ == bytes@,
                Err(e) => e == ApiError::InvalidSecret && !valid_keypair_bytes(bytes@),
            },
    {
        if !keypair_bytes_accepted(bytes) {
            return Err(ApiError::InvalidSecret);
        }
        let mut out = [0u8; 64];
        let mut i: usize = 0;
        while i < 64
            invariant
                i <= 64,
                bytes@.len() == 64,
                forall|j: int| 0 <= j < i ==> out@[j] == bytes@[j],
            decreases 64 - i,
        {
            out[i] = bytes[i];
            i += 1;
        }
        assert(out@ =~= bytes@);
        Ok(KeyPair { bytes: out })
    }

    /// Reads a keypair from the base58 text of its 64 bytes. `InvalidSecret`
    /// where the text is not base58, or stands for no valid keypair.
    pub fn from_encoded_secret(text: &str) -> (res: Result<KeyPair, ApiError>)
        ensures
            match res {
                Ok(kp) => secret_bytes(text@) == Some(kp@),
                Err(e) => e == ApiError::InvalidSecret && secret_bytes(text@) is None,
            },
    {
        match decode_base58(text) {
            Ok(bytes) => KeyPair::from_bytes(bytes.as_slice()),
            Err(_) => Err(ApiError::InvalidSecret),
        }
    }

    /// The public address: the second half of the encoding, which is the
    /// public key of the seed.
    pub fn address_of(&self) -> (res: Address)
        ensures
            res@ == self@.subrange(32, 64),
            res@ == ed25519_public_key(self@.subrange(0, 32)),
    {
        proof {
            use_type_invariant(self);
        }
        let mut out = [0u8; 32];
        let mut i: usize = 0;
        while i < 32
            invariant
                i <= 32,
                forall|j: int| 0 <= j < i ==> out@[j] == self.bytes@[j + 32],
            decreases 32 - i,
        {
            out[i] = self.bytes[i + 32];
            i += 1;
        }
        let res = Address { bytes: out };
        assert(res@ =~= self@.subrange(32, 64));
        res
    }

    /// The 32-byte seed: the first half of the encoding.
    pub fn seed(&self) -> (res: [u8; 32])
        ensures
            res@ == self@.subrange(0, 32),
    {
        let mut out = [0u8; 32];
        let mut i: usize = 0;
        while i < 32
            invariant
                i <= 32,
                forall|j: int| 0 <= j < i ==> out@[j] == self.bytes@[j],
            decreases 32 - i,
        {
            out[i] = self.bytes[i];
            i += 1;
        }
        assert(out@ =~= self@.subrange(0, 32));
        out
    }

    /// The 64 bytes seed ‖ public key.
    pub fn to_bytes(&self) -> (res: [u8; 64])
        ensures
            res@ == self@,
            valid_keypair_bytes(res@),
    {
        proof {
            use_type_invariant(self);
        }
        self.bytes
    }
}

} // verus!
