//! What the program uses of the token ledger: its record layouts, its identifier
//! and the encoding of its mint instruction.
//!
//! The ledger's own code does the work; this module holds the records as plain
//! values and says what is relied on.

use crate::instruction::{le_bytes, AccountMeta, Instruction, InstructionView};
use crate::pubkey::Pubkey;
use solana_program::program_error::ProgramError;
use solana_program::program_pack::Pack;
use vstd::prelude::*;

verus! {

/// The identifier of the token ledger program.
pub const TOKEN_PROGRAM_ID: [u8; 32] = [
    6, 221, 246, 225, 215, 101, 161, 147, 217, 203, 225, 70, 206, 235, 121, 172,
    28, 180, 133, 237, 95, 91, 55, 145, 58, 140, 245, 133, 126, 255, 0, 169,
];

/// The tag byte of the ledger's mint instruction.
pub const MINT_TO_TAG: u8 = 7;

/// Number of bytes of a holding on the ledger.
pub const HOLDING_LEN: usize = 165;

/// Number of bytes of a mint definition on the ledger.
pub const MINT_LEN: usize = 82;

/// A balance of one value type under one owner.
#[derive(Clone, Copy, Debug, PartialEq, Eq)]
pub struct Holding {
    /// The mint definition of the value type.
    pub mint: Pubkey,
    /// The party that controls the balance.
    pub owner: Pubkey,
    /// The balance.
    pub amount: u64,
}

/// A value type, as far as issuing goes.
#[derive(Clone, Copy, Debug, PartialEq, Eq)]
pub struct Mint {
    /// The party that may issue new units; `None` where issuing is closed for good.
    pub mint_authority: Option<Pubkey>,
}

/// Why an account buffer holds no record.
#[derive(Clone, Copy, Debug, PartialEq, Eq, Structural)]
pub enum RecordError {
    /// The buffer has the wrong length, or its bytes are no record of the kind.
    Invalid,
    /// The buffer is laid out as a record that was never initialised.
    Uninitialized,
}

/// What the ledger makes of an account buffer of [`HOLDING_LEN`] bytes that is to
/// hold a holding.
pub uninterp spec fn unpacked_holding(data: Seq<u8>) -> Result<Holding, RecordError>;

/// What the ledger makes of an account buffer of [`MINT_LEN`] bytes that is to hold
/// a mint definition.
pub uninterp spec fn unpacked_mint(data: Seq<u8>) -> Result<Mint, RecordError>;

/// The holding in an account buffer: a buffer of any length but [`HOLDING_LEN`] is
/// invalid, and one of that length is what the ledger makes of it.
pub open spec fn holding_record(data: Seq<u8>) -> Result<Holding, RecordError> {
    if data.len() == HOLDING_LEN {
        unpacked_holding(data)
    } else {
        Err(RecordError::Invalid)
    }
}

/// The mint definition in an account buffer: a buffer of any length but
/// [`MINT_LEN`] is invalid, and one of that length is what the ledger makes of it.
pub open spec fn mint_record(data: Seq<u8>) -> Result<Mint, RecordError> {
    if data.len() == MINT_LEN {
        unpacked_mint(data)
    } else {
        Err(RecordError::Invalid)
    }
}

/// The ledger's instruction that mints `amount` units of `mint` into `account` on
/// the word of `authority` alone.
pub open spec fn mint_to_instruction(
    mint: Pubkey,
    account: Pubkey,
    authority: Pubkey,
    amount: u64,
) -> InstructionView {
    InstructionView {
        program_id: Pubkey(TOKEN_PROGRAM_ID),
        accounts: seq![
            AccountMeta::writable(mint, false),
            AccountMeta::writable(account, false),
            AccountMeta::readonly(authority, true),
        ],
        data: seq![MINT_TO_TAG] + le_bytes(amount),
    }
}

/// Calls `spl_token::id`. The ledger's identifier is a constant of that crate:
/// the contract spells its 32 bytes out.
#[verifier::external_body]
pub(crate) fn token_program_id() -> (id: Pubkey)
    ensures
        id == Pubkey(TOKEN_PROGRAM_ID),
{
    Pubkey(spl_token::id().to_bytes())
}

/// Calls `Pack::unpack` of `spl_token::state::Account` and keeps the three fields
/// that the program reads. That function refuses a buffer of any length but 165 as
/// invalid data; what it makes of 165 bytes depends on the bytes alone, and the
/// contract only gives that its name. Of its errors the one for a record that was
/// never initialised is told apart.
#[verifier::external_body]
pub(crate) fn unpack_holding(data: &[u8]) -> (record: Result<Holding, RecordError>)
    ensures
        data@.len() == HOLDING_LEN ==> record == unpacked_holding(data@),
        data@.len() != HOLDING_LEN ==> record matches Err(RecordError::Invalid),
{
    match spl_token::state::Account::unpack(data) {
        Ok(account) => Ok(
            Holding {
                mint: Pubkey(account.mint.to_bytes()),
                owner: Pubkey(account.owner.to_bytes()),
                amount: account.amount,
            },
        ),
        Err(ProgramError::UninitializedAccount) => Err(RecordError::Uninitialized),
        Err(_) => Err(RecordError::Invalid),
    }
}

/// Calls `Pack::unpack` of `spl_token::state::Mint` and keeps the issuing
/// authority. That function refuses a buffer of any length but 82 as invalid data;
/// what it makes of 82 bytes depends on the bytes alone, and the contract only
/// gives that its name. Of its errors the one for a record that was never
/// initialised is told apart.
#[verifier::external_body]
pub(crate) fn unpack_mint(data: &[u8]) -> (record: Result<Mint, RecordError>)
    ensures
        data@.len() == MINT_LEN ==> record == unpacked_mint(data@),
        data@.len() != MINT_LEN ==> record matches Err(RecordError::Invalid),
{
    match spl_token::state::Mint::unpack(data) {
        Ok(mint) => {
            let authority: Option<solana_program::pubkey::Pubkey> = mint.mint_authority.into();
            Ok(Mint { mint_authority: authority.map(|key| Pubkey(key.to_bytes())) })
        },
        Err(ProgramError::UninitializedAccount) => Err(RecordError::Uninitialized),
        Err(_) => Err(RecordError::Invalid),
    }
}

/// Calls `spl_token::instruction::mint_to` with no further signers. That function
/// refuses every program identifier but the ledger's own; for the ledger's own it
/// names the mint and the account as writable, the authority as the one signer,
/// and encodes the tag and the amount.
#[verifier::external_body]
pub(crate) fn mint_to(
    token_program: &Pubkey,
    mint: &Pubkey,
    account: &Pubkey,
    authority: &Pubkey,
    amount: u64,
) -> (built: Result<Instruction, ProgramError>)
    ensures
        *token_program == Pubkey(TOKEN_PROGRAM_ID) ==> built is Ok && built->Ok_0@
            == mint_to_instruction(*mint, *account, *authority, amount),
        *token_program != Pubkey(TOKEN_PROGRAM_ID) ==> built is Err,
{
    let ix = spl_token::instruction::mint_to(
        &token_program.0.into(),
        &mint.0.into(),
        &account.0.into(),
        &authority.0.into(),
        &[],
        amount,
    )?;
    let accounts = ix.accounts.iter().map(|m| {
        let pubkey = Pubkey(m.pubkey.to_bytes());
        AccountMeta { pubkey, is_signer: m.is_signer, is_writable: m.is_writable }
    }).collect();
    Ok(Instruction { program_id: Pubkey(ix.program_id.to_bytes()), accounts, data: ix.data })
}

} // verus!
