//! Token-program instructions: the program to call, the accounts it touches
//! in the order the program expects them, and the serialized parameters.
//!
//! The layout is the token program's binary interface. Initialize-mint data
//! always has the full 67 bytes: an absent freeze authority is written as a
//! zero flag followed by 32 zero bytes.

use vstd::prelude::*;
use crate::address::{rent_sysvar_bytes, rent_sysvar_id, token_program_bytes, token_program_id, Address};

verus! {

/// The leading byte of initialize-mint data.
pub const INITIALIZE_MINT_TAG: u8 = 0;

/// The leading byte of mint-to data.
pub const MINT_TO_TAG: u8 = 7;

/// An account that an instruction touches, and how.
#[derive(Debug, Clone, Copy, PartialEq, Eq)]
pub struct AccountMeta {
    pub address: Address,
    pub is_signer: bool,
    pub is_writable: bool,
}

/// An account entry as plain values: address bytes, signer flag, writable
/// flag.
pub struct AccountModel {
    pub address: Seq<u8>,
    pub is_signer: bool,
    pub is_writable: bool,
}

impl View for AccountMeta {
    type V = AccountModel;

    open spec fn view(&self) -> AccountModel {
        AccountModel {
            address: self.address@,
            is_signer: self.is_signer,
            is_writable: self.is_writable,
        }
    }
}

/// A directive for the runtime: target program, ordered accounts, payload.
#[derive(Debug, PartialEq, Eq)]
pub struct Instruction {
    pub program_id: Address,
    pub accounts: Vec<AccountMeta>,
    pub data: Vec<u8>,
}

/// An instruction as plain values.
pub struct InstructionModel {
    pub program_id: Seq<u8>,
    pub accounts: Seq<AccountModel>,
    pub data: Seq<u8>,
}

impl View for Instruction {
    type V = InstructionModel;

    open spec fn view(&self) -> InstructionModel {
        InstructionModel {
            program_id: self.program_id@,
            accounts: Seq::new(self.accounts@.len(), |i: int| self.accounts@[i]@),
            data: self.data@,
        }
    }
}

/// The `width` low bytes of `value`, least significant first.
pub open spec fn le_bytes(value: nat, width: nat) -> Seq<u8>
    decreases width,
{
    if width == 0 {
        Seq::empty()
    } else {
        seq![(value % 256) as u8] + le_bytes(value / 256, (width - 1) as nat)
    }
}

/// The number that `bytes` spell, least significant byte first.
pub open spec fn le_value(bytes: Seq<u8>) -> nat
    decreases bytes.len(),
{
    if bytes.len() == 0 {
        0
    } else {
        bytes[0] as nat + 256 * le_value(bytes.subrange(1, bytes.len() as int))
    }
}

/// 256 to the power `width`.
pub open spec fn radix(width: nat) -> nat
    decreases width,
{
    if width == 0 {
        1
    } else {
        256 * radix((width - 1) as nat)
    }
}

/// Little-endian encoding has the asked width, and loses nothing of a value
/// that fits in it.
pub proof fn lemma_le_bytes_round_trip(value: nat, width: nat)
    ensures
        le_bytes(value, width).len() == width,
        value < radix(width) ==> le_value(le_bytes(value, width)) == value,
    decreases width,
{
    if width > 0 {
        let rest = le_bytes(value / 256, (width - 1) as nat);
        let all = le_bytes(value, width);
        lemma_le_bytes_round_trip(value / 256, (width - 1) as nat);
        assert(all.subrange(1, all.len() as int) =~= rest);
        assert(all[0] == (value % 256) as u8);
        if value < radix(width) {
            assert(value / 256 < radix((width - 1) as nat));
            assert(value == value % 256 + 256 * (value / 256));
        }
    }
}

/// Every 64-bit amount is read back from its eight little-endian bytes.
pub proof fn lemma_amount_round_trip(amount: u64)
    ensures
        le_bytes(amount as nat, 8).len() == 8,
        le_value(le_bytes(amount as nat, 8)) == amount,
{
    assert(radix(8) == 0x1_0000_0000_0000_0000) by {
        reveal_with_fuel(radix, 9);
    }
    lemma_le_bytes_round_trip(amount as nat, 8);
}

/// Thirty-two zero bytes: the freeze-authority field of a mint without one.
pub open spec fn zero_address_bytes() -> Seq<u8> {
    Seq::new(32, |i: int| 0u8)
}

/// Initialize-mint data: tag 0, the decimals, the mint authority, the
/// freeze-authority flag, the freeze authority or zeros.
pub open spec fn initialize_mint_data(
    decimals: u8,
    mint_authority: Seq<u8>,
    freeze_authority: Option<Seq<u8>>,
) -> Seq<u8> {
    seq![0u8, decimals] + mint_authority + match freeze_authority {
        Some(freeze) => seq![1u8] + freeze,
        None => seq![0u8] + zero_address_bytes(),
    }
}

/// Mint-to data: tag 7, then the amount in eight little-endian bytes.
pub open spec fn mint_to_data(amount: u64) -> Seq<u8> {
    seq![7u8] + le_bytes(amount as nat, 8)
}

/// Where each field of initialize-mint data lies: 67 bytes whatever the
/// parameters, the flag at offset 34, the freeze field all zero where no
/// freeze authority is given.
pub proof fn lemma_initialize_mint_layout(
    decimals: u8,
    mint_authority: Seq<u8>,
    freeze_authority: Option<Seq<u8>>,
)
    requires
        mint_authority.len() == 32,
        freeze_authority matches Some(freeze) ==> freeze.len() == 32,
    ensures
        ({
            let data = initialize_mint_data(decimals, mint_authority, freeze_authority);
            &&& data.len() == 67
            &&& data[0] == 0
            &&& data[1] == decimals
            &&& data.subrange(2, 34) == mint_authority
            &&& data[34] == match freeze_authority {
                Some(_) => 1u8,
                None => 0u8,
            }
            &&& data.subrange(35, 67) == match freeze_authority {
                Some(freeze) => freeze,
                None => zero_address_bytes(),
            }
            &&& freeze_authority is None ==> forall|i: int| 35 <= i < 67 ==> data[i] == 0
        }),
{
    let data = initialize_mint_data(decimals, mint_authority, freeze_authority);
    assert(data.subrange(2, 34) =~= mint_authority);
    match freeze_authority {
        Some(freeze) => {
            assert(data.subrange(35, 67) =~= freeze);
        },
        None => {
            assert(data.subrange(35, 67) =~= zero_address_bytes());
        },
    }
}

/// Where each field of mint-to data lies: nine bytes, the tag 7, then eight
/// bytes that spell the amount, least significant first.
pub proof fn lemma_mint_to_layout(amount: u64)
    ensures
        mint_to_data(amount).len() == 9,
        mint_to_data(amount)[0] == 7,
        le_value(mint_to_data(amount).subrange(1, 9)) == amount,
{
    lemma_amount_round_trip(amount);
    assert(mint_to_data(amount).subrange(1, 9) =~= le_bytes(amount as nat, 8));
}

/// Two amounts with the same mint-to data are the same amount.
pub proof fn lemma_mint_to_data_injective(a: u64, b: u64)
    requires
        mint_to_data(a) == mint_to_data(b),
    ensures
        a == b,
{
    lemma_mint_to_layout(a);
    lemma_mint_to_layout(b);
}

/// The initialize-mint instruction for these parameters.
pub open spec fn initialize_mint_model(
    mint: Seq<u8>,
    mint_authority: Seq<u8>,
    decimals: u8,
    freeze_authority: Option<Seq<u8>>,
) -> InstructionModel {
    InstructionModel {
        program_id: token_program_bytes(),
        accounts: seq![
            AccountModel { address: mint, is_signer: false, is_writable: true },
            AccountModel { address: rent_sysvar_bytes(), is_signer: false, is_writable: false },
        ],
        data: initialize_mint_data(decimals, mint_authority, freeze_authority),
    }
}

/// The mint-to instruction for these parameters.
pub open spec fn mint_to_model(
    mint: Seq<u8>,
    destination: Seq<u8>,
    authority: Seq<u8>,
    amount: u64,
) -> InstructionModel {
    InstructionModel {
        program_id: token_program_bytes(),
        accounts: seq![
            AccountModel { address: mint, is_signer: false, is_writable: true },
            AccountModel { address: destination, is_signer: false, is_writable: true },
            AccountModel { address: authority, is_signer: true, is_writable: false },
        ],
        data: mint_to_data(amount),
    }
}

/// Appends the 32 bytes of `address` to `out`.
pub fn write_address(out: &mut Vec<u8>, address: &Address)
    ensures
        final(out)@ == old(out)@ + address@,
{
    let mut i: usize = 0;
    while i < 32
        invariant
            i <= 32,
            out@ == old(out)@ + address@.subrange(0, i as int),
        decreases 32 - i,
    {
        out.push(address.bytes[i]);
        i += 1;
        assert(out@ =~= old(out)@ + address@.subrange(0, i as int));
    }
    assert(address@.subrange(0, 32) =~= address@);
}

/// Appends 32 zero bytes to `out`.
pub fn write_zero_address(out: &mut Vec<u8>)
    ensures
        final(out)@ == old(out)@ + zero_address_bytes(),
{
    let mut i: usize = 0;
    while i < 32
        invariant
            i <= 32,
            out@ == old(out)@ + zero_address_bytes().subrange(0, i as int),
        decreases 32 - i,
    {
        out.push(0u8);
        i += 1;
        assert(out@ =~= old(out)@ + zero_address_bytes().subrange(0, i as int));
    }
    assert(zero_address_bytes().subrange(0, 32) =~= zero_address_bytes());
}

/// Appends `amount` to `out` as eight bytes, least significant first.
pub fn write_u64_le(out: &mut Vec<u8>, amount: u64)
    ensures
        final(out)@ == old(out)@ + le_bytes(amount as nat, 8),
{
    let mut rest: u64 = amount;
    let mut i: usize = 0;
    while i < 8
        invariant
            i <= 8,
            out@ + le_bytes(rest as nat, (8 - i) as nat) == old(out)@ + le_bytes(amount as nat, 8),
        decreases 8 - i,
    {
        let ghost before = out@;
        let ghost tail = le_bytes((rest / 256) as nat, (8 - i - 1) as nat);
        let low: u8 = (rest % 256) as u8;
        assert(le_bytes(rest as nat, (8 - i) as nat) == seq![low] + tail);
        out.push(low);
        assert(out@ + tail =~= before + (seq![low] + tail));
        rest = rest / 256;
        i += 1;
    }
    assert(out@ + le_bytes(rest as nat, 0) =~= out@);
}

/// The token-program operations that this library builds.
#[derive(Debug, Clone, Copy, PartialEq, Eq)]
pub enum TokenInstruction {
    InitializeMint {
        mint: Address,
        mint_authority: Address,
        decimals: u8,
        freeze_authority: Option<Address>,
    },
    MintTo { mint: Address, destination: Address, authority: Address, amount: u64 },
}

/// An optional address as optional bytes.
pub open spec fn optional_bytes(address: Option<Address>) -> Option<Seq<u8>> {
    match address {
        Some(a) => Some(a@),
        None => None,
    }
}

impl TokenInstruction {
    /// The instruction that this operation stands for.
    pub open spec fn model(self) -> InstructionModel {
        match self {
            TokenInstruction::InitializeMint { mint, mint_authority, decimals, freeze_authority } =>
                initialize_mint_model(
                    mint@,
                    mint_authority@,
                    decimals,
                    optional_bytes(freeze_authority),
                ),
            TokenInstruction::MintTo { mint, destination, authority, amount } => mint_to_model(
                mint@,
                destination@,
                authority@,
                amount,
            ),
        }
    }

    /// The tag byte that selects the operation.
    pub fn discriminant(&self) -> (tag: u8)
        ensures
            tag == self.model().data[0],
            tag == match *self {
                TokenInstruction::InitializeMint { .. } => 0u8,
                TokenInstruction::MintTo { .. } => 7u8,
            },
    {
        match self {
            TokenInstruction::InitializeMint { .. } => INITIALIZE_MINT_TAG,
            TokenInstruction::MintTo { .. } => MINT_TO_TAG,
        }
    }

    /// The serialized parameters, tag byte first.
    pub fn data(&self) -> (out: Vec<u8>)
        ensures
            out@ == self.model().data,
    {
        let mut out: Vec<u8> = Vec::new();
        out.push(self.discriminant());
        match self {
            TokenInstruction::InitializeMint { mint: _, mint_authority, decimals, freeze_authority } => {
                out.push(*decimals);
                assert(out@ =~= seq![0u8, *decimals]);
                write_address(&mut out, mint_authority);
                match freeze_authority {
                    Some(freeze) => {
                        let ghost before = out@;
                        out.push(1u8);
                        write_address(&mut out, freeze);
                        assert(out@ =~= before + (seq![1u8] + freeze@));
                    },
                    None => {
                        let ghost before = out@;
                        out.push(0u8);
                        write_zero_address(&mut out);
                        assert(out@ =~= before + (seq![0u8] + zero_address_bytes()));
                    },
                }
            },
            TokenInstruction::MintTo { mint: _, destination: _, authority: _, amount } => {
                assert(out@ =~= seq![7u8]);
                write_u64_le(&mut out, *amount);
            },
        }
        out
    }

    /// The accounts in the order the token program expects them.
    pub fn accounts(&self) -> (out: Vec<AccountMeta>)
        ensures
            Seq::new(out@.len(), |i: int| out@[i]@) == self.model().accounts,
    {
        let mut out: Vec<AccountMeta> = Vec::new();
        match self {
            TokenInstruction::InitializeMint { mint, mint_authority: _, decimals: _, freeze_authority: _ } => {
                out.push(AccountMeta { address: *mint, is_signer: false, is_writable: true });
                out.push(
                    AccountMeta { address: rent_sysvar_id(), is_signer: false, is_writable: false },
                );
            },
            TokenInstruction::MintTo { mint, destination, authority, amount: _ } => {
                out.push(AccountMeta { address: *mint, is_signer: false, is_writable: true });
                out.push(AccountMeta { address: *destination, is_signer: false, is_writable: true });
                out.push(AccountMeta { address: *authority, is_signer: true, is_writable: false });
            },
        }
        assert(Seq::new(out@.len(), |i: int| out@[i]@) =~= self.model().accounts);
        out
    }

    /// The whole instruction: token program, accounts, data.
    pub fn build(&self) -> (res: Instruction)
        ensures
            res@ == self.model(),
    {
        Instruction { program_id: token_program_id(), accounts: self.accounts(), data: self.data() }
    }
}

/// The instruction that initializes `mint` with the given decimals and
/// authorities. It checks nothing about who owns what: that is the token
/// program's part.
pub fn initialize_mint(
    mint: &Address,
    mint_authority: &Address,
    decimals: u8,
    freeze_authority: Option<Address>,
) -> (res: Instruction)
    ensures
        res@ == initialize_mint_model(
            mint@,
            mint_authority@,
            decimals,
            optional_bytes(freeze_authority),
        ),
        res@.data.len() == 67,
{
    let op = TokenInstruction::InitializeMint {
        mint: *mint,
        mint_authority: *mint_authority,
        decimals,
        freeze_authority,
    };
    op.build()
}

/// The instruction that issues `amount` units of `mint` to `destination`,
/// signed by `authority`. An amount of zero is built like any other.
pub fn mint_to(mint: &Address, destination: &Address, authority: &Address, amount: u64) -> (res:
    Instruction)
    ensures
        res@ == mint_to_model(mint@, destination@, authority@, amount),
        res@.data.len() == 9,
{
    proof {
        lemma_le_bytes_round_trip(amount as nat, 8);
    }
    let op = TokenInstruction::MintTo {
        mint: *mint,
        destination: *destination,
        authority: *authority,
        amount,
    };
    op.build()
}

} // verus!
