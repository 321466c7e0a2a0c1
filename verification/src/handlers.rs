//! The five operations offered to a transport layer: each takes a request of
//! plain text and numbers and gives back a response of the same kind, or the
//! error that rejected an input.
//!
//! Addresses and secrets are base58; signatures and instruction data are
//! base64.

use vstd::prelude::*;
use vstd::utf8::encode_utf8;
use crate::address::{address_bytes, Address};
use crate::encoding::{base58_text, base64_bytes, base64_text, decode_base64, encode_base58, encode_base64};
use crate::error::{AddressField, ApiError};
use crate::instruction::{initialize_mint, initialize_mint_model, mint_to, mint_to_model, Instruction, InstructionModel};
use crate::keys::{secret_bytes, KeyPair};
use crate::signing::{ed25519_signature, ed25519_verifies, sign, verify, Signature};

verus! {

/// What a client is told when a request is rejected.
#[derive(Debug, PartialEq, Eq)]
pub struct ErrorResponse {
    pub success: bool,
    pub error: String,
}

#[derive(Debug, PartialEq, Eq)]
pub struct KeypairData {
    pub pubkey: String,
    pub secret: String,
}

#[derive(Debug, PartialEq, Eq)]
pub struct KeypairResponse {
    pub success: bool,
    pub data: KeypairData,
}

#[derive(Debug, PartialEq, Eq)]
pub struct CreateTokenRequest {
    pub mint_authority: String,
    pub mint: String,
    pub decimals: u8,
}

/// One account of an instruction, with its address as text.
#[derive(Debug, PartialEq, Eq)]
pub struct AccountInfo {
    pub pubkey: String,
    pub is_signer: bool,
    pub is_writable: bool,
}

#[derive(Debug, PartialEq, Eq)]
pub struct CreateTokenData {
    pub program_id: String,
    pub accounts: Vec<AccountInfo>,
    pub instruction_data: String,
}

#[derive(Debug, PartialEq, Eq)]
pub struct CreateTokenResponse {
    pub success: bool,
    pub data: CreateTokenData,
}

#[derive(Debug, PartialEq, Eq)]
pub struct MintToRequest {
    pub mint: String,
    pub destination: String,
    pub authority: String,
    pub amount: u64,
}

#[derive(Debug, PartialEq, Eq)]
pub struct MintToData {
    pub program_id: String,
    pub accounts: Vec<AccountInfo>,
    pub instruction_data: String,
}

#[derive(Debug, PartialEq, Eq)]
pub struct MintToResponse {
    pub success: bool,
    pub data: MintToData,
}

#[derive(Debug, PartialEq, Eq)]
pub struct SignMessageRequest {
    pub message: String,
    pub secret: String,
}

#[derive(Debug, PartialEq, Eq)]
pub struct SignMessageData {
    pub signature: String,
    pub pubkey: String,
    pub message: String,
}

#[derive(Debug, PartialEq, Eq)]
pub struct SignMessageResponse {
    pub success: bool,
    pub data: SignMessageData,
}

#[derive(Debug, PartialEq, Eq)]
pub struct VerifyMessageRequest {
    pub message: String,
    pub signature: String,
    pub pubkey: String,
}

#[derive(Debug, PartialEq, Eq)]
pub struct VerifyMessageData {
    pub valid: bool,
    pub message: String,
    pub pubkey: String,
}

#[derive(Debug, PartialEq, Eq)]
pub struct VerifyMessageResponse {
    pub success: bool,
    pub data: VerifyMessageData,
}

impl ErrorResponse {
    /// The response that reports `error`.
    pub fn new(error: ApiError) -> (res: ErrorResponse)
        ensures
            !res.success,
            res.error@ == error.text(),
    {
        ErrorResponse { success: false, error: error.message() }
    }
}

/// Whether the three text fields show `instruction`: the program and each
/// account's address in base58, the flags as they are, the data in base64.
pub open spec fn shows_instruction(
    instruction: InstructionModel,
    program_id: Seq<char>,
    accounts: Seq<AccountInfo>,
    instruction_data: Seq<char>,
) -> bool {
    &&& program_id == base58_text(instruction.program_id)
    &&& accounts.len() == instruction.accounts.len()
    &&& forall|i: int|
        0 <= i < accounts.len() ==> {
            &&& (#[trigger] accounts[i]).pubkey@ == base58_text(instruction.accounts[i].address)
            &&& accounts[i].is_signer == instruction.accounts[i].is_signer
            &&& accounts[i].is_writable == instruction.accounts[i].is_writable
        }
    &&& instruction_data == base64_text(instruction.data)
}

/// The signature bytes that a signature text stands for: what it decodes to
/// in base64, where that is exactly 64 bytes.
pub open spec fn signature_bytes(text: Seq<char>) -> Option<Seq<u8>> {
    match base64_bytes(text) {
        Some(bytes) => if bytes.len() == 64 {
            Some(bytes)
        } else {
            None
        },
        None => None,
    }
}

/// The accounts of `instruction` with their addresses as base58 text, in the
/// same order.
pub fn account_infos(instruction: &Instruction) -> (out: Vec<AccountInfo>)
    ensures
        out@.len() == instruction@.accounts.len(),
        forall|i: int|
            0 <= i < out@.len() ==> {
                &&& (#[trigger] out@[i]).pubkey@ == base58_text(instruction@.accounts[i].address)
                &&& out@[i].is_signer == instruction@.accounts[i].is_signer
                &&& out@[i].is_writable == instruction@.accounts[i].is_writable
            },
{
    let mut out: Vec<AccountInfo> = Vec::new();
    let mut k: usize = 0;
    while k < instruction.accounts.len()
        invariant
            k <= instruction.accounts@.len(),
            out@.len() == k,
            forall|i: int|
                0 <= i < k ==> {
                    &&& (#[trigger] out@[i]).pubkey@ == base58_text(instruction@.accounts[i].address)
                    &&& out@[i].is_signer == instruction@.accounts[i].is_signer
                    &&& out@[i].is_writable == instruction@.accounts[i].is_writable
                },
        decreases instruction.accounts@.len() - k,
    {
        let meta = &instruction.accounts[k];
        out.push(
            AccountInfo {
                pubkey: meta.address.to_text(),
                is_signer: meta.is_signer,
                is_writable: meta.is_writable,
            },
        );
        k += 1;
    }
    out
}

/// The response for a keypair: its address and its 64 bytes, both in base58.
/// Reading the secret back gives this keypair, and the address text reads
/// back as its public half.
pub fn keypair_response(kp: &KeyPair) -> (res: KeypairResponse)
    ensures
        res.success,
        res.data.pubkey@ == base58_text(kp@.subrange(32, 64)),
        res.data.secret@ == base58_text(kp@),
        secret_bytes(res.data.secret@) == Some(kp@),
        address_bytes(res.data.pubkey@) == Some(kp@.subrange(32, 64)),
{
    let bytes = kp.to_bytes();
    KeypairResponse {
        success: true,
        data: KeypairData {
            pubkey: kp.address_of().to_text(),
            secret: encode_base58(bytes.as_slice()),
        },
    }
}

/// A fresh keypair as text. Whatever was drawn, the secret reads back as a
/// valid keypair whose public half is the address shown.
pub fn generate_keypair() -> (res: KeypairResponse)
    ensures
        res.success,
        secret_bytes(res.data.secret@) matches Some(bytes) && address_bytes(res.data.pubkey@)
            == Some(bytes.subrange(32, 64)) && res.data.pubkey@ == base58_text(
            bytes.subrange(32, 64),
        ),
{
    let kp = KeyPair::generate();
    keypair_response(&kp)
}

/// Builds the initialize-mint instruction for the request, without a freeze
/// authority. The mint authority is checked first, then the mint; the first
/// that is no address is named in the error.
pub fn create_token(req: &CreateTokenRequest) -> (res: Result<CreateTokenResponse, ApiError>)
    ensures
        match (address_bytes(req.mint_authority@), address_bytes(req.mint@)) {
            (None, _) => res == Err::<CreateTokenResponse, ApiError>(
                ApiError::InvalidAddress(AddressField::MintAuthority),
            ),
            (Some(_), None) => res == Err::<CreateTokenResponse, ApiError>(
                ApiError::InvalidAddress(AddressField::Mint),
            ),
            (Some(authority), Some(mint)) => res matches Ok(r) && r.success && shows_instruction(
                initialize_mint_model(mint, authority, req.decimals, None),
                r.data.program_id@,
                r.data.accounts@,
                r.data.instruction_data@,
            ),
        },
{
    let mint_authority = match Address::from_text(req.mint_authority.as_str()) {
        Some(a) => a,
        None => {
            return Err(ApiError::InvalidAddress(AddressField::MintAuthority));
        },
    };
    let mint = match Address::from_text(req.mint.as_str()) {
        Some(a) => a,
        None => {
            return Err(ApiError::InvalidAddress(AddressField::Mint));
        },
    };
    let instruction = initialize_mint(&mint, &mint_authority, req.decimals, None);
    Ok(
        CreateTokenResponse {
            success: true,
            data: CreateTokenData {
                program_id: instruction.program_id.to_text(),
                accounts: account_infos(&instruction),
                instruction_data: encode_base64(instruction.data.as_slice()),
            },
        },
    )
}

/// Builds the mint-to instruction for the request. The addresses are checked
/// in the order mint, destination, authority; the first that is no address
/// is named in the error.
pub fn mint_to_token(req: &MintToRequest) -> (res: Result<MintToResponse, ApiError>)
    ensures
        match (
            address_bytes(req.mint@),
            address_bytes(req.destination@),
            address_bytes(req.authority@),
        ) {
            (None, _, _) => res == Err::<MintToResponse, ApiError>(
                ApiError::InvalidAddress(AddressField::Mint),
            ),
            (Some(_), None, _) => res == Err::<MintToResponse, ApiError>(
                ApiError::InvalidAddress(AddressField::Destination),
            ),
            (Some(_), Some(_), None) => res == Err::<MintToResponse, ApiError>(
                ApiError::InvalidAddress(AddressField::Authority),
            ),
            (Some(mint), Some(destination), Some(authority)) => res matches Ok(r) && r.success
                && shows_instruction(
                mint_to_model(mint, destination, authority, req.amount),
                r.data.program_id@,
                r.data.accounts@,
                r.data.instruction_data@,
            ),
        },
{
    let mint = match Address::from_text(req.mint.as_str()) {
        Some(a) => a,
        None => {
            return Err(ApiError::InvalidAddress(AddressField::Mint));
        },
    };
    let destination = match Address::from_text(req.destination.as_str()) {
        Some(a) => a,
        None => {
            return Err(ApiError::InvalidAddress(AddressField::Destination));
        },
    };
    let authority = match Address::from_text(req.authority.as_str()) {
        Some(a) => a,
        None => {
            return Err(ApiError::InvalidAddress(AddressField::Authority));
        },
    };
    let instruction = mint_to(&mint, &destination, &authority, req.amount);
    Ok(
        MintToResponse {
            success: true,
            data: MintToData {
                program_id: instruction.program_id.to_text(),
                accounts: account_infos(&instruction),
                instruction_data: encode_base64(instruction.data.as_slice()),
            },
        },
    )
}

/// Signs the UTF-8 bytes of the message with the keypair that the secret
/// stands for. The signature comes back in base64, the signer's address in
/// base58, the message as it was. Both texts read back: a verification
/// request made of this response is never rejected as malformed.
pub fn sign_message(req: &SignMessageRequest) -> (res: Result<SignMessageResponse, ApiError>)
    ensures
        match secret_bytes(req.secret@) {
            None => res == Err::<SignMessageResponse, ApiError>(ApiError::InvalidSecret),
            Some(bytes) => {
                let signature = ed25519_signature(
                    bytes.subrange(0, 32),
                    encode_utf8(req.message@),
                );
                &&& res matches Ok(r)
                &&& r.success
                &&& r.data.signature@ == base64_text(signature)
                &&& r.data.pubkey@ == base58_text(bytes.subrange(32, 64))
                &&& r.data.message@ == req.message@
                &&& signature_bytes(r.data.signature@) == Some(signature)
                &&& address_bytes(r.data.pubkey@) == Some(bytes.subrange(32, 64))
            },
        },
{
    let kp = match KeyPair::from_encoded_secret(req.secret.as_str()) {
        Ok(kp) => kp,
        Err(e) => {
            return Err(e);
        },
    };
    let signature = sign(&kp, req.message.as_str().as_bytes());
    Ok(
        SignMessageResponse {
            success: true,
            data: SignMessageData {
                signature: encode_base64(signature.bytes.as_slice()),
                pubkey: kp.address_of().to_text(),
                message: req.message.clone(),
            },
        },
    )
}

/// Reads a signature from its base64 text. `InvalidSignature` where the text
/// is not base64 or does not stand for exactly 64 bytes.
pub fn parse_signature(text: &str) -> (res: Result<Signature, ApiError>)
    ensures
        match res {
            Ok(s) => signature_bytes(text@) == Some(s@),
            Err(e) => e == ApiError::InvalidSignature && signature_bytes(text@) is None,
        },
{
    match decode_base64(text) {
        Ok(bytes) => match Signature::from_bytes(bytes.as_slice()) {
            Some(s) => Ok(s),
            None => Err(ApiError::InvalidSignature),
        },
        Err(_) => Err(ApiError::InvalidSignature),
    }
}

/// Checks a signature over the UTF-8 bytes of the message. The public key is
/// read first, then the signature. A signature that cannot be read is an
/// error; one that can be read and does not verify gives `valid: false`.
pub fn verify_message(req: &VerifyMessageRequest) -> (res: Result<VerifyMessageResponse, ApiError>)
    ensures
        match (address_bytes(req.pubkey@), signature_bytes(req.signature@)) {
            (None, _) => res == Err::<VerifyMessageResponse, ApiError>(
                ApiError::InvalidAddress(AddressField::Pubkey),
            ),
            (Some(_), None) => res == Err::<VerifyMessageResponse, ApiError>(
                ApiError::InvalidSignature,
            ),
            (Some(public), Some(signature)) => res matches Ok(r) && r.success && r.data.valid
                == ed25519_verifies(public, encode_utf8(req.message@), signature)
                && r.data.message@ == req.message@ && r.data.pubkey@ == req.pubkey@,
        },
{
    let address = match Address::from_text(req.pubkey.as_str()) {
        Some(a) => a,
        None => {
            return Err(ApiError::InvalidAddress(AddressField::Pubkey));
        },
    };
    let signature = match parse_signature(req.signature.as_str()) {
        Ok(s) => s,
        Err(e) => {
            return Err(e);
        },
    };
    let valid = verify(&address, req.message.as_str().as_bytes(), &signature);
    Ok(
        VerifyMessageResponse {
            success: true,
            data: VerifyMessageData {
                valid,
                message: req.message.clone(),
                pubkey: req.pubkey.clone(),
            },
        },
    )
}

} // verus!
