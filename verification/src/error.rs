//! The errors that input validation can report.

use vstd::prelude::*;

verus! {

/// The request field that held an address.
#[derive(Debug, Clone, Copy, PartialEq, Eq, Structural)]
pub enum AddressField {
    Mint,
    MintAuthority,
    Destination,
    Authority,
    Pubkey,
}

/// Why an input was rejected.
#[derive(Debug, Clone, Copy, PartialEq, Eq, Structural)]
pub enum ApiError {
    /// The named field is not the base58 text of exactly 32 bytes.
    InvalidAddress(AddressField),
    /// The secret is not the base58 text of a 64-byte keypair whose second
    /// half is the public key of its first half.
    InvalidSecret,
    /// The signature is not the base64 text of exactly 64 bytes.
    InvalidSignature,
    /// A text is not valid in the codec it was decoded with.
    InvalidEncoding,
}

impl ApiError {
    /// The message shown to a client for this error.
    pub open spec fn text(self) -> Seq<char> {
        match self {
            ApiError::InvalidAddress(AddressField::Mint) => "Invalid mint pubkey"@,
            ApiError::InvalidAddress(AddressField::MintAuthority) => "Invalid mint authority pubkey"@,
            ApiError::InvalidAddress(AddressField::Destination) => "Invalid destination pubkey"@,
            ApiError::InvalidAddress(AddressField::Authority) => "Invalid authority pubkey"@,
            ApiError::InvalidAddress(AddressField::Pubkey) => "Invalid pubkey"@,
            ApiError::InvalidSecret => "Invalid secret key"@,
            ApiError::InvalidSignature => "Invalid signature"@,
            ApiError::InvalidEncoding => "Invalid encoding"@,
        }
    }

    pub fn message(&self) -> (res: String)
        ensures
            res@ == self.text(),
    {
        match self {
            ApiError::InvalidAddress(AddressField::Mint) => "Invalid mint pubkey".to_owned(),
            ApiError::InvalidAddress(AddressField::MintAuthority) => "Invalid mint authority pubkey".to_owned(),
            ApiError::InvalidAddress(AddressField::Destination) => "Invalid destination pubkey".to_owned(),
            ApiError::InvalidAddress(AddressField::Authority) => "Invalid authority pubkey".to_owned(),
            ApiError::InvalidAddress(AddressField::Pubkey) => "Invalid pubkey".to_owned(),
            ApiError::InvalidSecret => "Invalid secret key".to_owned(),
            ApiError::InvalidSignature => "Invalid signature".to_owned(),
            ApiError::InvalidEncoding => "Invalid encoding".to_owned(),
        }
    }
}

} // verus!
