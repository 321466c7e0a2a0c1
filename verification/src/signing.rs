//! Detached ed25519 signatures over arbitrary messages.

use vstd::prelude::*;
use crate::address::Address;
use crate::keys::KeyPair;

verus! {

/// The signature that the `solana_sdk` keypair built from the 32-byte `seed`
/// gives for `message`.
pub uninterp spec fn ed25519_signature(seed: Seq<u8>, message: Seq<u8>) -> Seq<u8>;

/// Whether `solana_sdk` accepts the 64-byte `signature` for `message` under
/// the 32-byte public key `public`.
pub uninterp spec fn ed25519_verifies(public: Seq<u8>, message: Seq<u8>, signature: Seq<u8>) -> bool;

/// A 64-byte ed25519 signature.
#[derive(Debug, Clone, Copy, PartialEq, Eq)]
pub struct Signature {
    pub bytes: [u8; 64],
}

impl View for Signature {
    type V = Seq<u8>;

    open spec fn view(&self) -> Seq<u8> {
        self.bytes@
    }
}

/// Calls `Keypair::new_from_array(seed).sign_message(message)`. Trusted: the
/// 64 bytes depend on the seed and the message alone.
#[verifier::external_body]
fn ed25519_sign(seed: [u8; 32], message: &[u8]) -> (res: [u8; 64])
    ensures
        res@ == ed25519_signature(seed@, message@),
{
    let keypair = solana_sdk::signature::Keypair::new_from_array(seed);
    solana_sdk::signer::Signer::sign_message(&keypair, message).into()
}

/// Calls `Signature::verify` with the public key's bytes and the message.
/// Trusted: the answer depends on the three byte strings alone.
#[verifier::external_body]
fn ed25519_verify(public: &[u8; 32], message: &[u8], signature: [u8; 64]) -> (res: bool)
    ensures
        res == ed25519_verifies(public@, message@, signature@),
{
    solana_sdk::signature::Signature::from(signature).verify(public, message)
}

impl Signature {
    /// The signature whose bytes are `bytes`, where there are exactly 64.
    pub fn from_bytes(bytes: &[u8]) -> (res: Option<Signature>)
        ensures
            res is Some <==> bytes@.len() == 64,
            res matches Some(s) ==> s@ == bytes@,
    {
        if bytes.len() != 64 {
            return None;
        }
        let mut out = [0u8; 64];
        let mut i: usize = 0;
        while i < 64
            invariant
                i <= 64,
                bytes@.len() == 64,
                forall|j: int| 0 <= j < i ==> out@[j] == bytes@[j],
            decreases 64 - i,
        {
            out[i] = bytes[i];
            i += 1;
        }
        let res = Signature { bytes: out };
        assert(res@ =~= bytes@);
        Some(res)
    }

    pub fn to_bytes(&self) -> (res: [u8; 64])
        ensures
            res@ == self@,
    {
        self.bytes
    }
}

/// Signs `message` with the keypair's seed. The signature is a function of the
/// seed and the message: no randomness is drawn.
pub fn sign(kp: &KeyPair, message: &[u8]) -> (res: Signature)
    ensures
        res@ == ed25519_signature(kp@.subrange(0, 32), message@),
{
    let seed = kp.seed();
    Signature { bytes: ed25519_sign(seed, message) }
}

/// Whether `signature` is accepted for `message` under the public key
/// `address`.
pub fn verify(address: &Address, message: &[u8], signature: &Signature) -> (res: bool)
    ensures
        res == ed25519_verifies(address@, message@, signature@),
{
    ed25519_verify(&address.bytes, message, signature.bytes)
}

} // verus!
