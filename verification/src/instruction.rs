//! The operation that the program accepts, and its wire format.
//!
//! An operation travels as one tag byte followed by its amount as eight
//! little-endian bytes.

use crate::pubkey::Pubkey;
use crate::token::{token_program_id, TOKEN_PROGRAM_ID};
use solana_program::program_error::ProgramError;
use vstd::prelude::*;

verus! {

/// The tag byte of [`FactoryInstruction::Recv`].
pub const RECV_TAG: u8 = 1;

/// Number of bytes of an amount on the wire.
pub const AMOUNT_BYTES: usize = 8;

/// Number of bytes of a packed operation: the tag and the amount.
pub const PACKED_LEN: usize = 9;

/// An operation of the program.
#[derive(Clone, Copy, Debug, PartialEq, Eq, Structural)]
pub enum FactoryInstruction {
    /// Take `amount` units out of the source holding and have as many units of the
    /// destination value type minted into the destination holding.
    Recv(u64),
}

/// Why a byte buffer is not an operation.
#[derive(Clone, Copy, Debug, PartialEq, Eq, Structural)]
pub enum DecodeError {
    /// The buffer holds no byte at all.
    EmptyInput,
    /// The tag is known, but fewer than eight bytes follow it.
    Truncated,
    /// The first byte is not the tag of any operation.
    UnknownTag,
}

/// One account in the list that an instruction names.
#[derive(Clone, Copy, Debug, PartialEq, Eq)]
pub struct AccountMeta {
    /// The account's identifier.
    pub pubkey: Pubkey,
    /// Whether the instruction needs a signature for the account.
    pub is_signer: bool,
    /// Whether the account may change while the instruction runs.
    pub is_writable: bool,
}

impl AccountMeta {
    /// A writable account.
    pub open spec fn writable(pubkey: Pubkey, is_signer: bool) -> AccountMeta {
        AccountMeta { pubkey, is_signer, is_writable: true }
    }

    /// An account that is only read.
    pub open spec fn readonly(pubkey: Pubkey, is_signer: bool) -> AccountMeta {
        AccountMeta { pubkey, is_signer, is_writable: false }
    }

    /// Metadata for a writable account.
    pub fn new(pubkey: Pubkey, is_signer: bool) -> (meta: AccountMeta)
        ensures
            meta == AccountMeta::writable(pubkey, is_signer),
    {
        AccountMeta { pubkey, is_signer, is_writable: true }
    }

    /// Metadata for an account that is only read.
    pub fn new_readonly(pubkey: Pubkey, is_signer: bool) -> (meta: AccountMeta)
        ensures
            meta == AccountMeta::readonly(pubkey, is_signer),
    {
        AccountMeta { pubkey, is_signer, is_writable: false }
    }
}

/// A call of a program: which program, on which accounts, with which bytes.
#[derive(Clone, Debug, PartialEq, Eq)]
pub struct Instruction {
    /// The program that is to run.
    pub program_id: Pubkey,
    /// The accounts handed to it, in the order it expects them.
    pub accounts: Vec<AccountMeta>,
    /// The bytes handed to it.
    pub data: Vec<u8>,
}

/// An [`Instruction`] as a mathematical value.
pub struct InstructionView {
    pub program_id: Pubkey,
    pub accounts: Seq<AccountMeta>,
    pub data: Seq<u8>,
}

impl View for Instruction {
    type V = InstructionView;

    open spec fn view(&self) -> InstructionView {
        InstructionView { program_id: self.program_id, accounts: self.accounts@, data: self.data@ }
    }
}

/// The number that eight bytes spell, least significant byte first.
pub open spec fn le_value(bytes: Seq<u8>) -> int
    recommends
        bytes.len() == 8,
{
    bytes[0] + bytes[1] * 0x100 + bytes[2] * 0x1_0000 + bytes[3] * 0x100_0000 + bytes[4]
        * 0x1_0000_0000 + bytes[5] * 0x100_0000_0000 + bytes[6] * 0x1_0000_0000_0000 + bytes[7]
        * 0x100_0000_0000_0000
}

/// The eight bytes of `amount`, least significant byte first.
pub open spec fn le_bytes(amount: u64) -> Seq<u8> {
    seq![
        (amount % 0x100) as u8,
        (amount / 0x100 % 0x100) as u8,
        (amount / 0x1_0000 % 0x100) as u8,
        (amount / 0x100_0000 % 0x100) as u8,
        (amount / 0x1_0000_0000 % 0x100) as u8,
        (amount / 0x100_0000_0000 % 0x100) as u8,
        (amount / 0x1_0000_0000_0000 % 0x100) as u8,
        (amount / 0x100_0000_0000_0000 % 0x100) as u8,
    ]
}

/// What a buffer decodes to. Bytes after the ninth are not looked at.
pub open spec fn decode(input: Seq<u8>) -> Result<FactoryInstruction, DecodeError> {
    if input.len() == 0 {
        Err(DecodeError::EmptyInput)
    } else if input[0] != RECV_TAG {
        Err(DecodeError::UnknownTag)
    } else if input.len() < PACKED_LEN {
        Err(DecodeError::Truncated)
    } else {
        Ok(FactoryInstruction::Recv(le_value(input.subrange(1, PACKED_LEN as int)) as u64))
    }
}

/// The nine bytes of an operation.
pub open spec fn encode(op: FactoryInstruction) -> Seq<u8> {
    match op {
        FactoryInstruction::Recv(amount) => seq![RECV_TAG] + le_bytes(amount),
    }
}

/// Eight bytes never spell a number beyond 64 bits.
pub proof fn lemma_le_value_fits(bytes: Seq<u8>)
    requires
        bytes.len() == 8,
    ensures
        0 <= le_value(bytes) <= u64::MAX,
{
}

/// Reading back the bytes of an amount gives the amount.
pub proof fn lemma_le_value_of_bytes(amount: u64)
    ensures
        le_bytes(amount).len() == 8,
        le_value(le_bytes(amount)) == amount,
{
    assert(amount == (amount % 0x100) + (amount / 0x100 % 0x100) * 0x100 + (amount / 0x1_0000
        % 0x100) * 0x1_0000 + (amount / 0x100_0000 % 0x100) * 0x100_0000 + (amount
        / 0x1_0000_0000 % 0x100) * 0x1_0000_0000 + (amount / 0x100_0000_0000 % 0x100)
        * 0x100_0000_0000 + (amount / 0x1_0000_0000_0000 % 0x100) * 0x1_0000_0000_0000 + (amount
        / 0x100_0000_0000_0000 % 0x100) * 0x100_0000_0000_0000) by (bit_vector);
}

/// Writing out the number that eight bytes spell gives the same eight bytes.
pub proof fn lemma_le_bytes_of_value(bytes: Seq<u8>)
    requires
        bytes.len() == 8,
    ensures
        le_bytes(le_value(bytes) as u64) == bytes,
{
    let b0 = bytes[0];
    let b1 = bytes[1];
    let b2 = bytes[2];
    let b3 = bytes[3];
    let b4 = bytes[4];
    let b5 = bytes[5];
    let b6 = bytes[6];
    let b7 = bytes[7];
    let v = le_value(bytes) as u64;
    assert(v == b0 + b1 * 0x100 + b2 * 0x1_0000 + b3 * 0x100_0000 + b4 * 0x1_0000_0000 + b5
        * 0x100_0000_0000 + b6 * 0x1_0000_0000_0000 + b7 * 0x100_0000_0000_0000);
    assert(v == b0 + b1 * 0x100 + b2 * 0x1_0000 + b3 * 0x100_0000 + b4 * 0x1_0000_0000 + b5
        * 0x100_0000_0000 + b6 * 0x1_0000_0000_0000 + b7 * 0x100_0000_0000_0000 ==> v % 0x100
        == b0 && v / 0x100 % 0x100 == b1 && v / 0x1_0000 % 0x100 == b2 && v / 0x100_0000 % 0x100
        == b3 && v / 0x1_0000_0000 % 0x100 == b4 && v / 0x100_0000_0000 % 0x100 == b5 && v
        / 0x1_0000_0000_0000 % 0x100 == b6 && v / 0x100_0000_0000_0000 % 0x100 == b7)
        by (bit_vector);
    assert(le_bytes(v) =~= bytes);
}

/// Every operation survives a round trip over the wire.
pub proof fn lemma_round_trip(op: FactoryInstruction)
    ensures
        encode(op).len() == PACKED_LEN,
        decode(encode(op)) == (Ok::<FactoryInstruction, DecodeError>(op)),
{
    match op {
        FactoryInstruction::Recv(amount) => {
            lemma_le_value_of_bytes(amount);
            assert(encode(op).subrange(1, 9) =~= le_bytes(amount));
        },
    }
}

/// A buffer decodes exactly when it starts with the tag and eight more bytes; an
/// empty buffer is rejected as empty, a tag with fewer than eight bytes behind it
/// as truncated, and any other first byte as an unknown tag, whatever follows it.
pub proof fn lemma_decode_rejections(input: Seq<u8>)
    ensures
        input.len() == 0 ==> decode(input) matches Err(DecodeError::EmptyInput),
        input.len() > 0 && input[0] == RECV_TAG && input.len() - 1 < AMOUNT_BYTES ==> decode(
            input,
        ) matches Err(DecodeError::Truncated),
        input.len() > 0 && input[0] != RECV_TAG ==> decode(input) matches Err(
            DecodeError::UnknownTag,
        ),
        decode(input) is Ok <==> input.len() >= PACKED_LEN && input[0] == RECV_TAG,
{
}

/// Nine bytes that decode are the packed form of what they decode to: no two
/// buffers of that length spell the same operation.
pub proof fn lemma_encode_of_decoded(input: Seq<u8>)
    requires
        input.len() == PACKED_LEN,
        decode(input) is Ok,
    ensures
        encode(decode(input)->Ok_0) == input,
{
    let amount_bytes = input.subrange(1, PACKED_LEN as int);
    lemma_le_value_fits(amount_bytes);
    lemma_le_bytes_of_value(amount_bytes);
    assert(encode(decode(input)->Ok_0) =~= input);
}

/// Bytes behind a packed operation do not change what it decodes to.
pub proof fn lemma_decode_ignores_tail(op: FactoryInstruction, tail: Seq<u8>)
    ensures
        decode(encode(op) + tail) == (Ok::<FactoryInstruction, DecodeError>(op)),
{
    match op {
        FactoryInstruction::Recv(amount) => {
            lemma_le_value_of_bytes(amount);
            assert((encode(op) + tail).subrange(1, 9) =~= le_bytes(amount));
        },
    }
}

/// Reads the amount that starts at `input[at]`.
fn read_amount(input: &[u8], at: usize) -> (amount: u64)
    requires
        at + 8 <= input.len(),
    ensures
        amount == le_value(input@.subrange(at as int, at + 8)),
{
    (input[at] as u64) + (input[at + 1] as u64) * 0x100 + (input[at + 2] as u64) * 0x1_0000 + (
    input[at + 3] as u64) * 0x100_0000 + (input[at + 4] as u64) * 0x1_0000_0000 + (input[at
        + 5] as u64) * 0x100_0000_0000 + (input[at + 6] as u64) * 0x1_0000_0000_0000 + (input[at
        + 7] as u64) * 0x100_0000_0000_0000
}

/// Appends the eight bytes of `amount` to `buf`.
fn write_amount(buf: &mut Vec<u8>, amount: u64)
    ensures
        final(buf)@ == old(buf)@ + le_bytes(amount),
{
    buf.push((amount % 0x100) as u8);
    buf.push((amount / 0x100 % 0x100) as u8);
    buf.push((amount / 0x1_0000 % 0x100) as u8);
    buf.push((amount / 0x100_0000 % 0x100) as u8);
    buf.push((amount / 0x1_0000_0000 % 0x100) as u8);
    buf.push((amount / 0x100_0000_0000 % 0x100) as u8);
    buf.push((amount / 0x1_0000_0000_0000 % 0x100) as u8);
    buf.push((amount / 0x100_0000_0000_0000 % 0x100) as u8);
    assert(buf@ =~= old(buf)@ + le_bytes(amount));
}

impl FactoryInstruction {
    /// Decodes an operation from the front of `input`.
    pub fn unpack(input: &[u8]) -> (result: Result<FactoryInstruction, DecodeError>)
        ensures
            result == decode(input@),
    {
        if input.len() == 0 {
            return Err(DecodeError::EmptyInput);
        }
        if input[0] != RECV_TAG {
            return Err(DecodeError::UnknownTag);
        }
        if input.len() < PACKED_LEN {
            return Err(DecodeError::Truncated);
        }
        Ok(FactoryInstruction::Recv(read_amount(input, 1)))
    }

    /// Encodes the operation for submission.
    pub fn pack(&self) -> (buf: Vec<u8>)
        ensures
            buf@ == encode(*self),
            buf.len() == PACKED_LEN,
    {
        let mut buf: Vec<u8> = Vec::with_capacity(PACKED_LEN);
        match *self {
            FactoryInstruction::Recv(amount) => {
                buf.push(RECV_TAG);
                write_amount(&mut buf, amount);
            },
        }
        buf
    }
}

/// The instruction that submits `Recv(amount)` to the program `program_id`: the
/// accounts in the order in which the program consumes them, then the token ledger
/// program; the owner signs, and all are writable.
pub open spec fn recv_instruction(
    program_id: Pubkey,
    amount: u64,
    owner: Pubkey,
    source: Pubkey,
    destination: Pubkey,
    source_mint: Pubkey,
    destination_mint: Pubkey,
    authority: Pubkey,
) -> InstructionView {
    InstructionView {
        program_id,
        accounts: seq![
            AccountMeta::writable(owner, true),
            AccountMeta::writable(source, false),
            AccountMeta::writable(destination, false),
            AccountMeta::writable(source_mint, false),
            AccountMeta::writable(destination_mint, false),
            AccountMeta::writable(authority, false),
            AccountMeta::writable(Pubkey(TOKEN_PROGRAM_ID), false),
        ],
        data: encode(FactoryInstruction::Recv(amount)),
    }
}

/// Builds the instruction that submits `Recv(amount)` to the program. It never
/// fails.
pub fn instruction_recv(
    program_id: &Pubkey,
    amount: u64,
    owner: &Pubkey,
    source: &Pubkey,
    destination: &Pubkey,
    source_mint: &Pubkey,
    destination_mint: &Pubkey,
    mint_authority: &Pubkey,
) -> (result: Result<Instruction, ProgramError>)
    ensures
        result is Ok,
        result->Ok_0@ == recv_instruction(
            *program_id,
            amount,
            *owner,
            *source,
            *destination,
            *source_mint,
            *destination_mint,
            *mint_authority,
        ),
{
    let data = FactoryInstruction::Recv(amount).pack();
    let mut accounts: Vec<AccountMeta> = Vec::with_capacity(7);
    accounts.push(AccountMeta::new(*owner, true));
    accounts.push(AccountMeta::new(*source, false));
    accounts.push(AccountMeta::new(*destination, false));
    accounts.push(AccountMeta::new(*source_mint, false));
    accounts.push(AccountMeta::new(*destination_mint, false));
    accounts.push(AccountMeta::new(*mint_authority, false));
    accounts.push(AccountMeta::new(token_program_id(), false));
    let instruction = Instruction { program_id: *program_id, accounts, data };
    assert(instruction@.accounts =~= recv_instruction(
        *program_id,
        amount,
        *owner,
        *source,
        *destination,
        *source_mint,
        *destination_mint,
        *mint_authority,
    ).accounts);
    Ok(instruction)
}

} // verus!
