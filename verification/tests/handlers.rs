use wallet_core::error::{AddressField, ApiError};
use wallet_core::handlers::{
    create_token, mint_to_token, AccountInfo, CreateTokenRequest, ErrorResponse, MintToRequest,
};

const ONES: &str = "4vJ9JU1bJJE96FWSJKvHsmmFADCg4gpZQff4P3bkLKi";
const TWOS: &str = "8qbHbw2BbbTHBW1sbeqakYXVKRQM8Ne7pLK7m6CVfeR";
const THREES: &str = "CktRuQ2mttgRGkXJtyksdKHjUdc2C4TgDzyB98oEzy8";
const TOKEN_PROGRAM: &str = "TokenkegQfeZyiNwAJbNbGKPFXCWuBvf9Ss623VQ5DA";
const RENT_SYSVAR: &str = "SysvarRent111111111111111111111111111111111";
const TOO_SHORT: &str = "8zUFfLHADcabAoM9YFZYEosLosi2GDmsDuzfcSEkxG";
const TOO_LONG: &str = "3gg7zkoxVU7JxPZJKyGXwMsAZSsgimSpEP8aqGiFJNa7r";
const BAD_CHARACTERS: &str = "0OIl0OIl0OIl0OIl0OIl0OIl0OIl0OIl0OIl0OIl0OIl";

fn account(pubkey: &str, is_signer: bool, is_writable: bool) -> AccountInfo {
    AccountInfo { pubkey: pubkey.to_string(), is_signer, is_writable }
}

#[test]
fn create_token_response() {
    let res = create_token(&CreateTokenRequest {
        mint_authority: TWOS.to_string(),
        mint: ONES.to_string(),
        decimals: 9,
    })
    .unwrap();
    assert!(res.success);
    assert_eq!(res.data.program_id, TOKEN_PROGRAM);
    assert_eq!(
        res.data.accounts,
        vec![account(ONES, false, true), account(RENT_SYSVAR, false, false)]
    );
    assert_eq!(
        res.data.instruction_data,
        "AAkCAgICAgICAgICAgICAgICAgICAgICAgICAgICAgICAgAAAAAAAAAAAAAAAAAAAAAAAAAAAAAAAAAAAAAAAAAAAA=="
    );
}

#[test]
fn create_token_decimals_edges() {
    for decimals in [0u8, 255] {
        let res = create_token(&CreateTokenRequest {
            mint_authority: TWOS.to_string(),
            mint: ONES.to_string(),
            decimals,
        })
        .unwrap();
        let data = wallet_core::encoding::decode_base64(&res.data.instruction_data).unwrap();
        assert_eq!(data.len(), 67);
        assert_eq!(data[0], 0);
        assert_eq!(data[1], decimals);
        assert_eq!(&data[2..34], &[2u8; 32][..]);
        assert_eq!(&data[34..], &[0u8; 33][..]);
    }
}

#[test]
fn create_token_names_the_bad_field() {
    for bad in [TOO_SHORT, TOO_LONG, BAD_CHARACTERS, ""] {
        let authority = create_token(&CreateTokenRequest {
            mint_authority: bad.to_string(),
            mint: ONES.to_string(),
            decimals: 9,
        });
        assert_eq!(authority, Err(ApiError::InvalidAddress(AddressField::MintAuthority)));
        let mint = create_token(&CreateTokenRequest {
            mint_authority: TWOS.to_string(),
            mint: bad.to_string(),
            decimals: 9,
        });
        assert_eq!(mint, Err(ApiError::InvalidAddress(AddressField::Mint)));
        let both = create_token(&CreateTokenRequest {
            mint_authority: bad.to_string(),
            mint: bad.to_string(),
            decimals: 9,
        });
        assert_eq!(both, Err(ApiError::InvalidAddress(AddressField::MintAuthority)));
    }
}

#[test]
fn mint_to_token_response() {
    let res = mint_to_token(&MintToRequest {
        mint: ONES.to_string(),
        destination: TWOS.to_string(),
        authority: THREES.to_string(),
        amount: 1_000_000,
    })
    .unwrap();
    assert!(res.success);
    assert_eq!(res.data.program_id, TOKEN_PROGRAM);
    assert_eq!(
        res.data.accounts,
        vec![account(ONES, false, true), account(TWOS, false, true), account(THREES, true, false)]
    );
    assert_eq!(res.data.instruction_data, "B0BCDwAAAAAA");
}

#[test]
fn mint_to_token_amount_edges() {
    let zero = mint_to_token(&MintToRequest {
        mint: ONES.to_string(),
        destination: TWOS.to_string(),
        authority: THREES.to_string(),
        amount: 0,
    })
    .unwrap();
    assert_eq!(zero.data.instruction_data, "BwAAAAAAAAAA");
    let most = mint_to_token(&MintToRequest {
        mint: ONES.to_string(),
        destination: TWOS.to_string(),
        authority: THREES.to_string(),
        amount: u64::MAX,
    })
    .unwrap();
    assert_eq!(most.data.instruction_data, "B///////////");
}

#[test]
fn mint_to_token_names_the_first_bad_field() {
    for bad in [TOO_SHORT, TOO_LONG, BAD_CHARACTERS, ""] {
        let mint = mint_to_token(&MintToRequest {
            mint: bad.to_string(),
            destination: bad.to_string(),
            authority: bad.to_string(),
            amount: 1,
        });
        assert_eq!(mint, Err(ApiError::InvalidAddress(AddressField::Mint)));
        let destination = mint_to_token(&MintToRequest {
            mint: ONES.to_string(),
            destination: bad.to_string(),
            authority: bad.to_string(),
            amount: 1,
        });
        assert_eq!(destination, Err(ApiError::InvalidAddress(AddressField::Destination)));
        let authority = mint_to_token(&MintToRequest {
            mint: ONES.to_string(),
            destination: TWOS.to_string(),
            authority: bad.to_string(),
            amount: 1,
        });
        assert_eq!(authority, Err(ApiError::InvalidAddress(AddressField::Authority)));
    }
}

#[test]
fn error_messages() {
    let cases = [
        (ApiError::InvalidAddress(AddressField::Mint), "Invalid mint pubkey"),
        (ApiError::InvalidAddress(AddressField::MintAuthority), "Invalid mint authority pubkey"),
        (ApiError::InvalidAddress(AddressField::Destination), "Invalid destination pubkey"),
        (ApiError::InvalidAddress(AddressField::Authority), "Invalid authority pubkey"),
        (ApiError::InvalidAddress(AddressField::Pubkey), "Invalid pubkey"),
        (ApiError::InvalidSecret, "Invalid secret key"),
        (ApiError::InvalidSignature, "Invalid signature"),
        (ApiError::InvalidEncoding, "Invalid encoding"),
    ];
    for (error, text) in cases {
        assert_eq!(error.message(), text);
        assert_eq!(ErrorResponse::new(error), ErrorResponse { success: false, error: text.to_string() });
    }
}
