use wallet_core::address::{rent_sysvar_id, token_program_id, Address};
use wallet_core::instruction::{
    initialize_mint, mint_to, AccountMeta, Instruction, TokenInstruction, INITIALIZE_MINT_TAG,
    MINT_TO_TAG,
};

fn address(byte: u8) -> Address {
    Address { bytes: [byte; 32] }
}

fn same_as_sdk(ours: &Instruction, theirs: &spl_token::solana_program::instruction::Instruction) {
    assert_eq!(ours.program_id.bytes, theirs.program_id.to_bytes());
    assert_eq!(ours.accounts.len(), theirs.accounts.len());
    for (a, b) in ours.accounts.iter().zip(theirs.accounts.iter()) {
        assert_eq!(a.address.bytes, b.pubkey.to_bytes());
        assert_eq!(a.is_signer, b.is_signer);
        assert_eq!(a.is_writable, b.is_writable);
    }
}

fn sdk_key(byte: u8) -> spl_token::solana_program::pubkey::Pubkey {
    spl_token::solana_program::pubkey::Pubkey::new_from_array([byte; 32])
}

#[test]
fn initialize_mint_without_freeze_authority() {
    for decimals in [0u8, 9, 255] {
        let built = initialize_mint(&address(1), &address(2), decimals, None);
        assert_eq!(built.program_id, token_program_id());
        assert_eq!(
            built.accounts,
            vec![
                AccountMeta { address: address(1), is_signer: false, is_writable: true },
                AccountMeta { address: rent_sysvar_id(), is_signer: false, is_writable: false },
            ]
        );
        assert_eq!(built.data.len(), 67);
        let mut expected = vec![0u8, decimals];
        expected.extend([2u8; 32]);
        expected.push(0);
        expected.extend([0u8; 32]);
        assert_eq!(built.data, expected);
    }
}

#[test]
fn initialize_mint_with_freeze_authority() {
    let built = initialize_mint(&address(1), &address(2), 6, Some(address(3)));
    let mut expected = vec![0u8, 6];
    expected.extend([2u8; 32]);
    expected.push(1);
    expected.extend([3u8; 32]);
    assert_eq!(built.data, expected);
    assert_eq!(built.data.len(), 67);
    assert_eq!(built.accounts.len(), 2);

    let theirs = spl_token::instruction::initialize_mint(
        &spl_token::id(),
        &sdk_key(1),
        &sdk_key(2),
        Some(&sdk_key(3)),
        6,
    )
    .unwrap();
    same_as_sdk(&built, &theirs);
    assert_eq!(built.data, theirs.data);
}

#[test]
fn initialize_mint_pads_what_the_token_crate_leaves_short() {
    let built = initialize_mint(&address(1), &address(2), 9, None);
    let theirs =
        spl_token::instruction::initialize_mint(&spl_token::id(), &sdk_key(1), &sdk_key(2), None, 9)
            .unwrap();
    same_as_sdk(&built, &theirs);
    assert_eq!(theirs.data.len(), 35);
    assert_eq!(&built.data[..35], &theirs.data[..]);
    assert_eq!(&built.data[35..], &[0u8; 32][..]);
}

#[test]
fn mint_to_one_million() {
    let built = mint_to(&address(1), &address(2), &address(3), 1_000_000);
    assert_eq!(built.program_id, token_program_id());
    assert_eq!(
        built.accounts,
        vec![
            AccountMeta { address: address(1), is_signer: false, is_writable: true },
            AccountMeta { address: address(2), is_signer: false, is_writable: true },
            AccountMeta { address: address(3), is_signer: true, is_writable: false },
        ]
    );
    assert_eq!(built.data, vec![7u8, 0x40, 0x42, 0x0f, 0, 0, 0, 0, 0]);
}

#[test]
fn mint_to_amount_edges() {
    assert_eq!(mint_to(&address(1), &address(2), &address(3), 0).data, vec![7u8, 0, 0, 0, 0, 0, 0, 0, 0]);
    assert_eq!(
        mint_to(&address(1), &address(2), &address(3), u64::MAX).data,
        vec![7u8, 255, 255, 255, 255, 255, 255, 255, 255]
    );
    assert_eq!(
        mint_to(&address(1), &address(2), &address(3), 0x0102_0304_0506_0708).data,
        vec![7u8, 8, 7, 6, 5, 4, 3, 2, 1]
    );
    assert_eq!(mint_to(&address(1), &address(2), &address(3), 256).data, vec![7u8, 0, 1, 0, 0, 0, 0, 0, 0]);
}

#[test]
fn mint_to_agrees_with_the_token_crate() {
    for amount in [0u64, 1, 255, 256, 1_000_000, u64::MAX / 3, u64::MAX] {
        let built = mint_to(&address(4), &address(5), &address(6), amount);
        let theirs = spl_token::instruction::mint_to(
            &spl_token::id(),
            &sdk_key(4),
            &sdk_key(5),
            &sdk_key(6),
            &[],
            amount,
        )
        .unwrap();
        same_as_sdk(&built, &theirs);
        assert_eq!(built.data, theirs.data);
    }
}

#[test]
fn token_instruction_parts() {
    let init = TokenInstruction::InitializeMint {
        mint: address(1),
        mint_authority: address(2),
        decimals: 2,
        freeze_authority: None,
    };
    assert_eq!(init.discriminant(), 0);
    assert_eq!(INITIALIZE_MINT_TAG, 0);
    assert_eq!(init.data()[0], 0);
    assert_eq!(init.accounts().len(), 2);
    assert_eq!(init.build(), initialize_mint(&address(1), &address(2), 2, None));

    let mint = TokenInstruction::MintTo {
        mint: address(1),
        destination: address(2),
        authority: address(3),
        amount: 5,
    };
    assert_eq!(mint.discriminant(), 7);
    assert_eq!(MINT_TO_TAG, 7);
    assert_eq!(mint.data(), vec![7u8, 5, 0, 0, 0, 0, 0, 0, 0]);
    assert_eq!(mint.accounts().len(), 3);
    assert_eq!(mint.build(), mint_to(&address(1), &address(2), &address(3), 5));
}
