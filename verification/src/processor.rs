//! Validation of a receive operation and the hand-over to the token ledger.
//!
//! An invocation is validated first, with no effect on anything; only an
//! invocation that passed every check is dispatched, as one call to the ledger.

use crate::error::FailureKind;
use crate::instruction::{decode, DecodeError, FactoryInstruction, Instruction, InstructionView};
use crate::pubkey::Pubkey;
use crate::token::{
    holding_record, mint_record, mint_to, mint_to_instruction, token_program_id, unpack_holding,
    unpack_mint, Holding, Mint, RecordError, HOLDING_LEN, MINT_LEN,
};
use solana_program::program_error::ProgramError;
use vstd::prelude::*;

verus! {

/// Position of the account that owns the source holding.
pub const OWNER: usize = 0;

/// Position of the source holding.
pub const SOURCE: usize = 1;

/// Position of the destination holding.
pub const DESTINATION: usize = 2;

/// Position of the mint definition of the source value type.
pub const SOURCE_MINT: usize = 3;

/// Position of the mint definition of the destination value type.
pub const DESTINATION_MINT: usize = 4;

/// Position of the account that is to be the issuing authority of both value types.
pub const AUTHORITY: usize = 5;

/// Number of accounts that a receive operation consumes.
pub const ACCOUNTS: usize = 6;

/// An account as the host hands it to one invocation.
#[derive(Clone, Debug, PartialEq, Eq)]
pub struct AccountInfo {
    /// The account's identifier.
    pub key: Pubkey,
    /// Whether the account signed the invocation.
    pub is_signer: bool,
    /// Whether the invocation may change the account.
    pub is_writable: bool,
    /// The account's state on the ledger.
    pub data: Vec<u8>,
}

/// The accounts of a receive operation under their names, taken from the
/// positions at which the host supplies them.
#[derive(Clone, Copy, Debug)]
pub struct RecvAccounts<'a> {
    /// The account that is to own the source holding.
    pub owner: &'a AccountInfo,
    /// The holding that gives up the amount.
    pub source: &'a AccountInfo,
    /// The holding that receives the new units.
    pub destination: &'a AccountInfo,
    /// The mint definition of the source value type.
    pub source_mint: &'a AccountInfo,
    /// The mint definition of the destination value type.
    pub destination_mint: &'a AccountInfo,
    /// The account that is to be the issuing authority of both value types.
    pub authority: &'a AccountInfo,
}

impl<'a> RecvAccounts<'a> {
    /// The first [`ACCOUNTS`] of `accounts` under their names.
    pub open spec fn named(accounts: Seq<AccountInfo>) -> RecvAccounts<'a> {
        RecvAccounts {
            owner: &accounts[OWNER as int],
            source: &accounts[SOURCE as int],
            destination: &accounts[DESTINATION as int],
            source_mint: &accounts[SOURCE_MINT as int],
            destination_mint: &accounts[DESTINATION_MINT as int],
            authority: &accounts[AUTHORITY as int],
        }
    }

    /// Names the accounts of an invocation. Fewer than [`ACCOUNTS`] is the one way
    /// to fail; accounts beyond them are left alone.
    pub fn take(accounts: &'a [AccountInfo]) -> (result: Result<RecvAccounts<'a>, FailureKind>)
        ensures
            accounts@.len() < ACCOUNTS ==> result matches Err(FailureKind::MissingAccount),
            accounts@.len() >= ACCOUNTS ==> (result matches Ok(taken) && taken
                == RecvAccounts::named(accounts@)),
    {
        if accounts.len() < ACCOUNTS {
            return Err(FailureKind::MissingAccount);
        }
        Ok(
            RecvAccounts {
                owner: &accounts[OWNER],
                source: &accounts[SOURCE],
                destination: &accounts[DESTINATION],
                source_mint: &accounts[SOURCE_MINT],
                destination_mint: &accounts[DESTINATION_MINT],
                authority: &accounts[AUTHORITY],
            },
        )
    }
}

/// The one call that a validated invocation asks of the token ledger.
#[derive(Clone, Debug, PartialEq, Eq)]
pub struct MintCall {
    /// The ledger's mint instruction.
    pub instruction: Instruction,
    /// Position, among the invocation's accounts, of the mint definition to pass along.
    pub mint: usize,
    /// Position of the holding that receives the new units.
    pub destination: usize,
    /// Position of the authority on whose word they are minted.
    pub authority: usize,
}

/// A [`MintCall`] as a mathematical value.
pub struct MintCallView {
    pub instruction: InstructionView,
    pub mint: usize,
    pub destination: usize,
    pub authority: usize,
}

impl View for MintCall {
    type V = MintCallView;

    open spec fn view(&self) -> MintCallView {
        MintCallView {
            instruction: self.instruction@,
            mint: self.mint,
            destination: self.destination,
            authority: self.authority,
        }
    }
}

/// Ownership before balance: the source holding must belong to `owner` and must
/// hold at least `amount`.
pub open spec fn holding_check(owner: Pubkey, source: Holding, amount: u64) -> Result<
    (),
    FailureKind,
> {
    if source.owner != owner {
        Err(FailureKind::IllegalOwner)
    } else if source.amount < amount {
        Err(FailureKind::InsufficientFunds)
    } else {
        Ok(())
    }
}

/// Both value types must have an issuing authority, and for both it must be
/// `authority`.
pub open spec fn authority_check(source_mint: Mint, destination_mint: Mint, authority: Pubkey)
    -> Result<(), FailureKind> {
    match (source_mint.mint_authority, destination_mint.mint_authority) {
        (Some(a), Some(b)) => if a == authority && b == authority {
            Ok(())
        } else {
            Err(FailureKind::AuthorityMismatch)
        },
        _ => Err(FailureKind::MissingAuthority),
    }
}

/// What validation makes of an invocation: the amount to have minted, or the kind
/// of the first check that fails.
///
/// The operation is decoded before any account is looked at, the accounts are
/// counted before any record is read, and the mint definitions are read only once
/// the source holding has passed its checks.
pub open spec fn verdict(accounts: Seq<AccountInfo>, input: Seq<u8>) -> Result<u64, FailureKind> {
    match decode(input) {
        Err(e) => Err(FailureKind::Decode(e)),
        Ok(FactoryInstruction::Recv(amount)) => if accounts.len() < ACCOUNTS {
            Err(FailureKind::MissingAccount)
        } else {
            match holding_record(accounts[SOURCE as int].data@) {
                Err(e) => Err(FailureKind::MalformedRecord(e)),
                Ok(source) => match holding_record(accounts[DESTINATION as int].data@) {
                    Err(e) => Err(FailureKind::MalformedRecord(e)),
                    Ok(_) => match holding_check(accounts[OWNER as int].key, source, amount) {
                        Err(kind) => Err(kind),
                        Ok(()) => match mint_record(accounts[SOURCE_MINT as int].data@) {
                            Err(e) => Err(FailureKind::MalformedRecord(e)),
                            Ok(source_mint) => match mint_record(
                                accounts[DESTINATION_MINT as int].data@,
                            ) {
                                Err(e) => Err(FailureKind::MalformedRecord(e)),
                                Ok(destination_mint) => match authority_check(
                                    source_mint,
                                    destination_mint,
                                    accounts[AUTHORITY as int].key,
                                ) {
                                    Err(kind) => Err(kind),
                                    Ok(()) => Ok(amount),
                                },
                            },
                        },
                    },
                },
            }
        },
    }
}

/// The call that goes to the ledger once `amount` has been cleared: mint `amount`
/// units of the destination value type into the destination holding, on the word
/// of the authority account.
pub open spec fn delegated_call(accounts: Seq<AccountInfo>, amount: u64) -> MintCallView {
    MintCallView {
        instruction: mint_to_instruction(
            accounts[DESTINATION_MINT as int].key,
            accounts[DESTINATION as int].key,
            accounts[AUTHORITY as int].key,
            amount,
        ),
        mint: DESTINATION_MINT,
        destination: DESTINATION,
        authority: AUTHORITY,
    }
}

/// The invocation's result once the ledger has answered: success stays success,
/// and the ledger's error is handed on as it came.
pub open spec fn settled(outcome: Result<(), ProgramError>) -> Result<(), FailureKind> {
    match outcome {
        Ok(()) => Ok(()),
        Err(e) => Err(FailureKind::External(e)),
    }
}

/// The program's processor.
pub struct Processor {}

impl Processor {
    /// Checks the source holding against the supplied owner and the requested amount.
    pub fn check_holding(owner: &Pubkey, source: &Holding, amount: u64) -> (result: Result<
        (),
        FailureKind,
    >)
        ensures
            result == holding_check(*owner, *source, amount),
    {
        if !(source.owner == *owner) {
            return Err(FailureKind::IllegalOwner);
        }
        if source.amount < amount {
            return Err(FailureKind::InsufficientFunds);
        }
        Ok(())
    }

    /// Checks the issuing authority of both value types against the supplied one.
    pub fn check_authority(
        source_mint: &Mint,
        destination_mint: &Mint,
        authority: &Pubkey,
    ) -> (result: Result<(), FailureKind>)
        ensures
            result == authority_check(*source_mint, *destination_mint, *authority),
    {
        let source_authority = match source_mint.mint_authority {
            Some(key) => key,
            None => { return Err(FailureKind::MissingAuthority); },
        };
        let destination_authority = match destination_mint.mint_authority {
            Some(key) => key,
            None => { return Err(FailureKind::MissingAuthority); },
        };
        if !(destination_authority == *authority) || !(source_authority == *authority) {
            return Err(FailureKind::AuthorityMismatch);
        }
        Ok(())
    }

    /// What the source holding would keep after giving up `amount`. Nothing is
    /// debited here; the subtraction is the last guard before the dispatch.
    pub fn remaining_balance(source: &Holding, amount: u64) -> (result: Result<u64, FailureKind>)
        ensures
            amount <= source.amount ==> (result matches Ok(rest) && rest == source.amount - amount),
            amount > source.amount ==> result matches Err(FailureKind::InsufficientFunds),
    {
        match source.amount.checked_sub(amount) {
            Some(rest) => Ok(rest),
            None => Err(FailureKind::InsufficientFunds),
        }
    }

    /// Validates an invocation and, where every check holds, says which call is to
    /// go to the ledger. Nothing is changed and nothing is dispatched.
    pub fn validate(accounts: &[AccountInfo], instruction_data: &[u8]) -> (result: Result<
        MintCall,
        FailureKind,
    >)
        ensures
            match verdict(accounts@, instruction_data@) {
                Ok(amount) => result is Ok && result->Ok_0@ == delegated_call(accounts@, amount),
                Err(kind) => result == (Err::<MintCall, FailureKind>(kind)),
            },
    {
        let amount = match FactoryInstruction::unpack(instruction_data) {
            Ok(FactoryInstruction::Recv(amount)) => amount,
            Err(e) => { return Err(FailureKind::Decode(e)); },
        };
        let named = match RecvAccounts::take(accounts) {
            Ok(named) => named,
            Err(kind) => { return Err(kind); },
        };

        let source = match unpack_holding(named.source.data.as_slice()) {
            Ok(holding) => holding,
            Err(e) => { return Err(FailureKind::MalformedRecord(e)); },
        };
        match unpack_holding(named.destination.data.as_slice()) {
            Ok(_) => {},
            Err(e) => { return Err(FailureKind::MalformedRecord(e)); },
        }
        match Processor::check_holding(&named.owner.key, &source, amount) {
            Ok(()) => {},
            Err(kind) => { return Err(kind); },
        }

        let source_mint = match unpack_mint(named.source_mint.data.as_slice()) {
            Ok(mint) => mint,
            Err(e) => { return Err(FailureKind::MalformedRecord(e)); },
        };
        let destination_mint = match unpack_mint(named.destination_mint.data.as_slice()) {
            Ok(mint) => mint,
            Err(e) => { return Err(FailureKind::MalformedRecord(e)); },
        };
        match Processor::check_authority(&source_mint, &destination_mint, &named.authority.key) {
            Ok(()) => {},
            Err(kind) => { return Err(kind); },
        }

        match Processor::remaining_balance(&source, amount) {
            Ok(_) => {},
            Err(kind) => { return Err(kind); },
        }

        let ledger = token_program_id();
        match mint_to(
            &ledger,
            &named.destination_mint.key,
            &named.destination.key,
            &named.authority.key,
            amount,
        ) {
            Ok(instruction) => Ok(
                MintCall {
                    instruction,
                    mint: DESTINATION_MINT,
                    destination: DESTINATION,
                    authority: AUTHORITY,
                },
            ),
            Err(e) => Err(FailureKind::External(e)),
        }
    }

    /// Turns the ledger's answer to the delegated call into the invocation's result.
    pub fn settle(outcome: Result<(), ProgramError>) -> (result: Result<(), FailureKind>)
        ensures
            result == settled(outcome),
    {
        match outcome {
            Ok(()) => Ok(()),
            Err(e) => Err(FailureKind::External(e)),
        }
    }

    /// Runs one invocation: see [`Processor::process_instruction`].
    pub fn process<L>(
        program_id: &Pubkey,
        accounts: &[AccountInfo],
        instruction_data: &[u8],
        ledger: L,
    ) -> (result: Result<(), FailureKind>) where L: FnOnce(MintCall) -> Result<(), ProgramError>
        requires
            forall|call: MintCall|
                verdict(accounts@, instruction_data@) is Ok && call@ == delegated_call(
                    accounts@,
                    verdict(accounts@, instruction_data@)->Ok_0,
                ) ==> #[trigger] ledger.requires((call,)),
        ensures
            match verdict(accounts@, instruction_data@) {
                Err(kind) => result == (Err::<(), FailureKind>(kind)),
                Ok(amount) => exists|call: MintCall, outcome: Result<(), ProgramError>|
                    call@ == delegated_call(accounts@, amount) && #[trigger] ledger.ensures(
                        (call,),
                        outcome,
                    ) && result == settled(outcome),
            },
            result is Ok ==> verdict(accounts@, instruction_data@) is Ok,
    {
        Processor::process_instruction(program_id, accounts, instruction_data, ledger)
    }

    /// Runs one invocation of the program `program_id` on the accounts that the
    /// host supplied, in their fixed order, and on the operation bytes.
    ///
    /// `ledger` stands for the token ledger: it performs the delegated call. It is
    /// called only for an invocation that passed every check, with the call that
    /// [`delegated_call`] describes, and its answer decides the result. Being an
    /// `FnOnce`, it cannot be called twice.
    pub fn process_instruction<L>(
        program_id: &Pubkey,
        accounts: &[AccountInfo],
        instruction_data: &[u8],
        ledger: L,
    ) -> (result: Result<(), FailureKind>) where L: FnOnce(MintCall) -> Result<(), ProgramError>
        requires
            forall|call: MintCall|
                verdict(accounts@, instruction_data@) is Ok && call@ == delegated_call(
                    accounts@,
                    verdict(accounts@, instruction_data@)->Ok_0,
                ) ==> #[trigger] ledger.requires((call,)),
        ensures
            match verdict(accounts@, instruction_data@) {
                Err(kind) => result == (Err::<(), FailureKind>(kind)),
                Ok(amount) => exists|call: MintCall, outcome: Result<(), ProgramError>|
                    call@ == delegated_call(accounts@, amount) && #[trigger] ledger.ensures(
                        (call,),
                        outcome,
                    ) && result == settled(outcome),
            },
            result is Ok ==> verdict(accounts@, instruction_data@) is Ok,
    {
        let call = match Processor::validate(accounts, instruction_data) {
            Ok(call) => call,
            Err(kind) => { return Err(kind); },
        };
        let ghost sent = call;
        let outcome = ledger(call);
        assert(ledger.ensures((sent,), outcome));
        Processor::settle(outcome)
    }
}

/// The invocation gets as far as the checks on the source holding: the operation
/// decodes to `Recv(amount)`, no account is missing, and both holdings are records,
/// the source one being `source`.
pub open spec fn reaches_holding_check(
    accounts: Seq<AccountInfo>,
    input: Seq<u8>,
    amount: u64,
    source: Holding,
) -> bool {
    &&& decode(input) == (Ok::<FactoryInstruction, DecodeError>(FactoryInstruction::Recv(amount)))
    &&& accounts.len() >= ACCOUNTS
    &&& holding_record(accounts[SOURCE as int].data@) == (Ok::<Holding, RecordError>(source))
    &&& holding_record(accounts[DESTINATION as int].data@) is Ok
}

/// The invocation gets as far as the checks on the issuing authority: the source
/// holding passed its checks, and both mint definitions are records.
pub open spec fn reaches_authority_check(
    accounts: Seq<AccountInfo>,
    input: Seq<u8>,
    amount: u64,
    source: Holding,
    source_mint: Mint,
    destination_mint: Mint,
) -> bool {
    &&& reaches_holding_check(accounts, input, amount, source)
    &&& holding_check(accounts[OWNER as int].key, source, amount) is Ok
    &&& mint_record(accounts[SOURCE_MINT as int].data@) == (Ok::<Mint, RecordError>(source_mint))
    &&& mint_record(accounts[DESTINATION_MINT as int].data@) == (Ok::<Mint, RecordError>(
        destination_mint,
    ))
}

/// A request for more than the source holding has is never cleared, whatever else
/// holds of the invocation; where the holding belongs to the supplied owner, the
/// invocation fails for want of funds.
pub proof fn lemma_insufficient_funds(
    accounts: Seq<AccountInfo>,
    input: Seq<u8>,
    amount: u64,
    source: Holding,
)
    requires
        reaches_holding_check(accounts, input, amount, source),
        amount > source.amount,
    ensures
        verdict(accounts, input) is Err,
        source.owner == accounts[OWNER as int].key ==> verdict(accounts, input) matches Err(
            FailureKind::InsufficientFunds,
        ),
{
}

/// A source holding that is not the supplied owner's fails the invocation as one
/// of an illegal owner, whatever the amount.
pub proof fn lemma_illegal_owner(
    accounts: Seq<AccountInfo>,
    input: Seq<u8>,
    amount: u64,
    source: Holding,
)
    requires
        reaches_holding_check(accounts, input, amount, source),
        source.owner != accounts[OWNER as int].key,
    ensures
        verdict(accounts, input) matches Err(FailureKind::IllegalOwner),
{
}

/// Where either value type has no issuing authority, the invocation fails for the
/// missing authority.
pub proof fn lemma_missing_authority(
    accounts: Seq<AccountInfo>,
    input: Seq<u8>,
    amount: u64,
    source: Holding,
    source_mint: Mint,
    destination_mint: Mint,
)
    requires
        reaches_authority_check(accounts, input, amount, source, source_mint, destination_mint),
        source_mint.mint_authority is None || destination_mint.mint_authority is None,
    ensures
        verdict(accounts, input) matches Err(FailureKind::MissingAuthority),
{
}

/// Where both value types have an issuing authority and either differs from the
/// supplied one, the invocation fails for the mismatch.
pub proof fn lemma_authority_mismatch(
    accounts: Seq<AccountInfo>,
    input: Seq<u8>,
    amount: u64,
    source: Holding,
    source_mint: Mint,
    destination_mint: Mint,
)
    requires
        reaches_authority_check(accounts, input, amount, source, source_mint, destination_mint),
        source_mint.mint_authority is Some,
        destination_mint.mint_authority is Some,
        source_mint.mint_authority->Some_0 != accounts[AUTHORITY as int].key
            || destination_mint.mint_authority->Some_0 != accounts[AUTHORITY as int].key,
    ensures
        verdict(accounts, input) matches Err(FailureKind::AuthorityMismatch),
{
}

/// A holding buffer of any length but the ledger's fails the invocation as
/// malformed, once the operation has decoded and the accounts are all there; where
/// it is the source holding's, the record is reported as invalid.
pub proof fn lemma_holding_of_wrong_length(accounts: Seq<AccountInfo>, input: Seq<u8>)
    requires
        decode(input) is Ok,
        accounts.len() >= ACCOUNTS,
        accounts[SOURCE as int].data@.len() != HOLDING_LEN || accounts[DESTINATION as int].data@.len()
            != HOLDING_LEN,
    ensures
        verdict(accounts, input) matches Err(FailureKind::MalformedRecord(_)),
        accounts[SOURCE as int].data@.len() != HOLDING_LEN ==> verdict(
            accounts,
            input,
        ) matches Err(FailureKind::MalformedRecord(RecordError::Invalid)),
{
}

/// A mint definition buffer of any length but the ledger's fails the invocation as
/// malformed, once the source holding has passed its checks; where it is the source
/// value type's, the record is reported as invalid.
pub proof fn lemma_mint_of_wrong_length(
    accounts: Seq<AccountInfo>,
    input: Seq<u8>,
    amount: u64,
    source: Holding,
)
    requires
        reaches_holding_check(accounts, input, amount, source),
        holding_check(accounts[OWNER as int].key, source, amount) is Ok,
        accounts[SOURCE_MINT as int].data@.len() != MINT_LEN
            || accounts[DESTINATION_MINT as int].data@.len() != MINT_LEN,
    ensures
        verdict(accounts, input) matches Err(FailureKind::MalformedRecord(_)),
        accounts[SOURCE_MINT as int].data@.len() != MINT_LEN ==> verdict(
            accounts,
            input,
        ) matches Err(FailureKind::MalformedRecord(RecordError::Invalid)),
{
}

/// All that is enforced before the dispatch: the operation is `Recv(amount)`, the
/// accounts are all there, both holdings and both mint definitions are records,
/// the source holding is the supplied owner's and covers `amount`, and both value
/// types are issued by the supplied authority.
pub open spec fn entitled(accounts: Seq<AccountInfo>, input: Seq<u8>, amount: u64) -> bool {
    &&& decode(input) == (Ok::<FactoryInstruction, DecodeError>(FactoryInstruction::Recv(amount)))
    &&& accounts.len() >= ACCOUNTS
    &&& holding_record(accounts[SOURCE as int].data@) matches Ok(source)
        && source.owner == accounts[OWNER as int].key && source.amount >= amount
    &&& holding_record(accounts[DESTINATION as int].data@) is Ok
    &&& mint_record(accounts[SOURCE_MINT as int].data@) matches Ok(mint) && mint.mint_authority
        == Some(accounts[AUTHORITY as int].key)
    &&& mint_record(accounts[DESTINATION_MINT as int].data@) matches Ok(mint)
        && mint.mint_authority == Some(accounts[AUTHORITY as int].key)
}

/// An invocation is cleared for an amount exactly when all that is enforced before
/// the dispatch holds of it.
pub proof fn lemma_cleared_exactly_when_entitled(
    accounts: Seq<AccountInfo>,
    input: Seq<u8>,
    amount: u64,
)
    ensures
        verdict(accounts, input) == (Ok::<u64, FailureKind>(amount)) <==> entitled(
            accounts,
            input,
            amount,
        ),
{
}

/// No check that fails is reported as a refusal by the ledger: the ledger is not
/// reached before every check has held.
pub proof fn lemma_rejection_is_not_external(accounts: Seq<AccountInfo>, input: Seq<u8>)
    ensures
        verdict(accounts, input) matches Err(kind) ==> !(kind is External),
{
}

} // verus!
