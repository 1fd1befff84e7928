use solana_program::account_info::AccountInfo;
use solana_program::entrypoint::ProgramResult;
use solana_program::instruction::{AccountMeta, Instruction};
use solana_program::program::invoke;
use solana_program::program_error::ProgramError;
use solana_program::program_pack::Pack;
use solana_program::program_stubs;
use solana_program::pubkey::Pubkey;
use solana_program::rent::Rent;
use solana_program::sysvar::Sysvar;
use spl_token::instruction::{initialize_account, initialize_mint, mint_to};
use spl_token::state::Account as SplAccount;
use token_factory::instruction::instruction_recv;
use token_factory::processor::{MintCall, Processor};
use token_factory::FailureKind;

// Test program id for the swap program.
const SWAP_PROGRAM_ID: Pubkey = Pubkey::new_from_array([2u8; 32]);

#[derive(Clone, Default)]
struct Account {
    lamports: u64,
    data: Vec<u8>,
    owner: Pubkey,
}

impl Account {
    fn new(lamports: u64, space: usize, owner: &Pubkey) -> Self {
        Account { lamports, data: vec![0u8; space], owner: *owner }
    }
}

struct TestSyscallStubs {}

impl program_stubs::SyscallStubs for TestSyscallStubs {
    fn sol_invoke_signed(
        &self,
        instruction: &Instruction,
        account_infos: &[AccountInfo],
        signers_seeds: &[&[&[u8]]],
    ) -> ProgramResult {
        let mut new_account_infos = vec![];

        for meta in instruction.accounts.iter() {
            for account_info in account_infos.iter() {
                if meta.pubkey == *account_info.key {
                    let mut new_account_info = account_info.clone();
                    for seeds in signers_seeds.iter() {
                        let signer =
                            Pubkey::create_program_address(seeds, &SWAP_PROGRAM_ID).unwrap();
                        if *account_info.key == signer {
                            new_account_info.is_signer = true;
                        }
                    }
                    new_account_infos.push(new_account_info);
                }
            }
        }

        spl_token::processor::Processor::process(
            &instruction.program_id,
            &new_account_infos,
            &instruction.data,
        )
    }
}

fn test_syscall_stubs() {
    program_stubs::set_syscall_stubs(Box::new(TestSyscallStubs {}));
}

fn mint_minimum_balance() -> u64 {
    Rent::default().minimum_balance(spl_token::state::Mint::get_packed_len())
}

fn account_minimum_balance() -> u64 {
    Rent::default().minimum_balance(spl_token::state::Account::get_packed_len())
}

fn rent_sysvar_account() -> Account {
    let key = solana_program::sysvar::rent::id();
    let mut account = Account::new(1, Rent::size_of(), &solana_program::sysvar::id());
    {
        let mut info = AccountInfo::new(
            &key,
            false,
            true,
            &mut account.lamports,
            &mut account.data,
            &account.owner,
            false,
            0,
        );
        Rent::free().to_account_info(&mut info).unwrap();
    }
    account
}

fn library_key(key: &Pubkey) -> token_factory::Pubkey {
    token_factory::Pubkey::new_from_array(key.to_bytes())
}

fn host_instruction(built: token_factory::Instruction) -> Instruction {
    Instruction {
        program_id: Pubkey::new_from_array(built.program_id.to_bytes()),
        accounts: built
            .accounts
            .iter()
            .map(|meta| AccountMeta {
                pubkey: Pubkey::new_from_array(meta.pubkey.to_bytes()),
                is_signer: meta.is_signer,
                is_writable: meta.is_writable,
            })
            .collect(),
        data: built.data,
    }
}

// What the program does with the handles of the host: the library decides, and the
// delegated call goes out through `invoke`.
fn process_on_handles(
    program_id: &Pubkey,
    accounts: &[AccountInfo],
    instruction_data: &[u8],
) -> Result<(), FailureKind> {
    let views: Vec<token_factory::processor::AccountInfo> = accounts
        .iter()
        .map(|info| token_factory::processor::AccountInfo {
            key: library_key(info.key),
            is_signer: info.is_signer,
            is_writable: info.is_writable,
            data: info.data.borrow().to_vec(),
        })
        .collect();
    Processor::process_instruction(
        &library_key(program_id),
        &views,
        instruction_data,
        |call: MintCall| {
            invoke(
                &host_instruction(call.instruction),
                &[
                    accounts[call.mint].clone(),
                    accounts[call.destination].clone(),
                    accounts[call.authority].clone(),
                ],
            )
        },
    )
}

fn do_process_instruction(
    instruction: Instruction,
    accounts: Vec<&mut Account>,
) -> Result<(), FailureKind> {
    test_syscall_stubs();

    // approximate the logic in the actual runtime which runs the instruction
    // and only updates accounts if the instruction is successful
    let mut account_clones = accounts.iter().map(|x| (*x).clone()).collect::<Vec<_>>();
    let mut meta = instruction
        .accounts
        .iter()
        .zip(account_clones.iter_mut())
        .map(|(account_meta, account)| (&account_meta.pubkey, account_meta.is_signer, account))
        .collect::<Vec<_>>();
    let mut account_infos = meta
        .iter_mut()
        .map(|(key, is_signer, account)| {
            AccountInfo::new(
                key,
                *is_signer,
                false,
                &mut account.lamports,
                &mut account.data,
                &account.owner,
                false,
                0,
            )
        })
        .collect::<Vec<_>>();
    let res = if instruction.program_id == SWAP_PROGRAM_ID {
        process_on_handles(&instruction.program_id, &account_infos, &instruction.data)
    } else {
        spl_token::processor::Processor::process(
            &instruction.program_id,
            &account_infos,
            &instruction.data,
        )
        .map_err(FailureKind::External)
    };

    if res.is_ok() {
        let mut account_metas = instruction
            .accounts
            .iter()
            .zip(accounts)
            .map(|(account_meta, account)| (&account_meta.pubkey, account))
            .collect::<Vec<_>>();
        for account_info in account_infos.iter_mut() {
            for account_meta in account_metas.iter_mut() {
                if account_info.key == account_meta.0 {
                    let account = &mut account_meta.1;
                    account.owner = *account_info.owner;
                    account.lamports = **account_info.lamports.borrow();
                    account.data = account_info.data.borrow().to_vec();
                }
            }
        }
    }
    res
}

fn mint_token(
    program_id: &Pubkey,
    mint_key: &Pubkey,
    mut mint_account: &mut Account,
    mint_authority_key: &Pubkey,
    account_owner_key: &Pubkey,
    amount: u64,
) -> (Pubkey, Account) {
    let account_key = Pubkey::new_unique();
    let mut account_account = Account::new(
        account_minimum_balance(),
        spl_token::state::Account::get_packed_len(),
        program_id,
    );
    let mut mint_authority_account = Account::default();
    let mut rent_sysvar_account = rent_sysvar_account();

    do_process_instruction(
        initialize_account(program_id, &account_key, mint_key, account_owner_key).unwrap(),
        vec![
            &mut account_account,
            &mut mint_account,
            &mut mint_authority_account,
            &mut rent_sysvar_account,
        ],
    )
    .unwrap();

    if amount > 0 {
        do_process_instruction(
            mint_to(program_id, mint_key, &account_key, mint_authority_key, &[], amount).unwrap(),
            vec![&mut mint_account, &mut account_account, &mut mint_authority_account],
        )
        .unwrap();
    }

    (account_key, account_account)
}

fn create_mint(
    program_id: &Pubkey,
    authority_key: &Pubkey,
    freeze_authority: Option<&Pubkey>,
) -> (Pubkey, Account) {
    let mint_key = Pubkey::new_unique();
    let mut mint_account = Account::new(
        mint_minimum_balance(),
        spl_token::state::Mint::get_packed_len(),
        program_id,
    );
    let mut rent_sysvar_account = rent_sysvar_account();

    do_process_instruction(
        initialize_mint(program_id, &mint_key, authority_key, freeze_authority, 2).unwrap(),
        vec![&mut mint_account, &mut rent_sysvar_account],
    )
    .unwrap();

    (mint_key, mint_account)
}

struct FactoryAccountInfo {
    user_key: Pubkey,
    user_key_account: Account,

    account_a: Pubkey,
    account_a_account: Account,

    token_a_key: Pubkey,
    token_a_account: Account,
    token_a_mint_key: Pubkey,
    token_a_mint_account: Account,

    token_b_key: Pubkey,
    token_b_account: Account,
    token_b_mint_key: Pubkey,
    token_b_mint_account: Account,
}

impl FactoryAccountInfo {
    pub fn new(token_a_amount: u64, token_b_amount: u64) -> Self {
        let account_a = Pubkey::new_unique();
        let account_a_account = Account::new(1000000, 0, &account_a);

        let account_b = Pubkey::new_unique();

        let user_key = Pubkey::new_unique();
        let user_key_account = Account::new(1000000, 0, &user_key);

        let (token_a_mint_key, mut token_a_mint_account) =
            create_mint(&spl_token::id(), &user_key, None);
        let (token_a_key, token_a_account) = mint_token(
            &spl_token::id(),
            &token_a_mint_key,
            &mut token_a_mint_account,
            &user_key,
            &account_a,
            token_a_amount,
        );
        let (token_b_mint_key, mut token_b_mint_account) =
            create_mint(&spl_token::id(), &user_key, None);
        let (token_b_key, token_b_account) = mint_token(
            &spl_token::id(),
            &token_b_mint_key,
            &mut token_b_mint_account,
            &user_key,
            &account_b,
            token_b_amount,
        );

        FactoryAccountInfo {
            user_key,
            user_key_account,

            account_a,
            account_a_account,

            token_a_key,
            token_a_account,
            token_a_mint_key,
            token_a_mint_account,

            token_b_key,
            token_b_account,
            token_b_mint_key,
            token_b_mint_account,
        }
    }

    ///   0. `[signer]` owner of source token a account
    ///   1. `[writable]` A account from Token A. source account
    ///   2. `[writable]` B account from Token B.  destination account
    ///   3. `[]` token_a mint.
    ///   4. `[]` token_b mint.
    ///   5. `[]` mint authority
    ///   6. '[]` Token program id
    pub fn do_recv(&mut self) -> Result<(), FailureKind> {
        let res = do_process_instruction(
            host_instruction(
                instruction_recv(
                    &library_key(&SWAP_PROGRAM_ID),
                    10,
                    &library_key(&self.account_a),
                    &library_key(&self.token_a_key),
                    &library_key(&self.token_b_key),
                    &library_key(&self.token_a_mint_key),
                    &library_key(&self.token_b_mint_key),
                    &library_key(&self.user_key),
                )
                .unwrap(),
            ),
            vec![
                &mut self.account_a_account,
                &mut self.token_a_account,
                &mut self.token_b_account,
                &mut self.token_a_mint_account,
                &mut self.token_b_mint_account,
                &mut self.user_key_account,
            ],
        );

        let token_b_new = SplAccount::unpack(&self.token_b_account.data).unwrap();
        println!("--------- new token b amount {}", token_b_new.amount);

        res
    }
}

#[test]
fn test_recv() {
    let mut fct = FactoryAccountInfo::new(1000, 1000);

    let res = fct.do_recv();
    println!("result {:?}", res);
    assert!(res.is_err());
}

#[test]
fn recv_fails_for_want_of_the_authority_signature() {
    let mut fct = FactoryAccountInfo::new(1000, 1000);

    let res = fct.do_recv();
    assert_eq!(res, Err(FailureKind::External(ProgramError::MissingRequiredSignature)));
    let token_b = SplAccount::unpack(&fct.token_b_account.data).unwrap();
    assert_eq!(token_b.amount, 1000);
}

#[test]
fn recv_mints_when_the_authority_has_signed() {
    let mut fct = FactoryAccountInfo::new(1000, 1000);

    let mut instruction = host_instruction(
        instruction_recv(
            &library_key(&SWAP_PROGRAM_ID),
            10,
            &library_key(&fct.account_a),
            &library_key(&fct.token_a_key),
            &library_key(&fct.token_b_key),
            &library_key(&fct.token_a_mint_key),
            &library_key(&fct.token_b_mint_key),
            &library_key(&fct.user_key),
        )
        .unwrap(),
    );
    instruction.accounts[5].is_signer = true;
    let res = do_process_instruction(
        instruction,
        vec![
            &mut fct.account_a_account,
            &mut fct.token_a_account,
            &mut fct.token_b_account,
            &mut fct.token_a_mint_account,
            &mut fct.token_b_mint_account,
            &mut fct.user_key_account,
        ],
    );
    assert_eq!(res, Ok(()));
    let token_b = SplAccount::unpack(&fct.token_b_account.data).unwrap();
    assert_eq!(token_b.amount, 1010);
    let token_a = SplAccount::unpack(&fct.token_a_account.data).unwrap();
    assert_eq!(token_a.amount, 1000);
}
