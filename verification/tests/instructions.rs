use account_engine::account::{AccountRecord, State, STATE_LEN, STATE_TAG};
use account_engine::address::Address;
use account_engine::constraint::{validate, Constraint, ConstraintSet};
use account_engine::derivation::{Seed, SeedSpec};
use account_engine::error::{EngineError, ViolationKind};
use account_engine::instructions::{
    cpi_transfer, initialize, initialize_token_mint, initialize_with_pda, mint_tokens,
    rent_sysvar_id, run_cpi_transfer, run_initialize, run_initialize_token_mint,
    run_initialize_with_pda, run_mint_tokens, run_transfer_with_cpi, system_program_id,
    token_program_id, transfer_with_cpi, Context, Initialize, InitializeToken, InitializeWithCpi,
    InitializeWithPda, TransferWithCpi,
};
use account_engine::invocation::AccountMeta;
use anchor_lang::prelude::Pubkey;
use anchor_lang::solana_program::system_instruction;
use std::str::FromStr;

fn program_id() -> Address {
    let key = Pubkey::from_str("Fg6PaFpoGXkYsidMpWTK6W2BeZ7FEfcYkg476zPFsLnS").unwrap();
    Address::new(key.to_bytes())
}

fn record(address: Address, is_signer: bool, is_writable: bool) -> AccountRecord {
    AccountRecord {
        address,
        owner: system_program_id(),
        lamports: 1_000,
        data: vec![],
        is_signer,
        is_writable,
        is_executable: false,
    }
}

fn program(address: Address) -> AccountRecord {
    let mut account = record(address, false, false);
    account.is_executable = true;
    account
}

fn payer() -> AccountRecord {
    record(Address::new([7u8; 32]), true, true)
}

fn recipient() -> AccountRecord {
    record(Address::new([8u8; 32]), false, true)
}

fn system_program() -> AccountRecord {
    program(system_program_id())
}

fn state_address() -> Address {
    let payer = Pubkey::new_from_array([7u8; 32]);
    let program = Pubkey::new_from_array(program_id().to_bytes());
    let (address, _) = Pubkey::find_program_address(&[b"state", payer.as_ref()], &program);
    Address::new(address.to_bytes())
}

fn token_records() -> Vec<AccountRecord> {
    vec![
        payer(),
        record(Address::new([8u8; 32]), true, true),
        program(token_program_id()),
        system_program(),
        record(rent_sysvar_id(), false, false),
    ]
}

fn violation(kind: ViolationKind, slot: &str) -> EngineError {
    EngineError::ConstraintViolation { kind, slot: slot.to_string() }
}

fn set(slot: &str, predicates: Vec<Constraint>) -> ConstraintSet {
    ConstraintSet { slot: slot.to_string(), predicates }
}

fn payer_set() -> ConstraintSet {
    set("payer", vec![Constraint::Signer, Constraint::Writable])
}

fn program_set(slot: &str, id: Address) -> ConstraintSet {
    set(slot, vec![Constraint::HasAddress(id), Constraint::Executable])
}

#[test]
fn test_initialize() {
    let records: Vec<AccountRecord> = vec![];
    let accounts = Initialize::try_accounts(&program_id(), &records).unwrap();
    assert_eq!(accounts, Initialize {});
    assert!(Initialize::slots().is_empty());
    assert_eq!(initialize(Context { program_id: program_id(), accounts }), Ok(()));
    assert_eq!(run_initialize(&program_id(), &records), Ok(()));
    assert_eq!(run_initialize(&program_id(), &vec![payer()]), Ok(()));
}

#[test]
fn well_known_addresses_are_those_of_the_ledger() {
    assert_eq!(system_program_id().to_bytes(), [0u8; 32]);
    assert_eq!(
        system_program_id().to_bytes(),
        anchor_lang::solana_program::system_program::ID.to_bytes()
    );
    assert_eq!(token_program_id().to_bytes(), anchor_spl::token::ID.to_bytes());
    assert_eq!(
        rent_sysvar_id().to_bytes(),
        anchor_lang::solana_program::sysvar::rent::ID.to_bytes()
    );
    assert_eq!(
        token_program_id().to_bytes(),
        Pubkey::from_str("TokenkegQfeZyiNwAJbNbGKPFXCWuBvf9Ss623VQ5DA").unwrap().to_bytes()
    );
    assert_eq!(
        rent_sysvar_id().to_bytes(),
        Pubkey::from_str("SysvarRent111111111111111111111111111111111").unwrap().to_bytes()
    );
}

#[test]
fn initialize_with_pda_declares_its_slots() {
    let slots = InitializeWithPda::slots(&payer().address);
    let seeds = SeedSpec {
        components: vec![Seed::Literal(b"state".to_vec()), Seed::Key(payer().address)],
        bump: None,
    };
    assert_eq!(
        slots,
        vec![
            payer_set(),
            set(
                "state",
                vec![
                    Constraint::Writable,
                    Constraint::DerivedFrom(seeds),
                    Constraint::Uninitialized
                ]
            ),
            program_set("system_program", system_program_id()),
        ]
    );
}

#[test]
fn initialize_with_pda_starts_the_count_at_zero() {
    let mut records = vec![payer(), record(state_address(), false, true), system_program()];
    let state = {
        let accounts = InitializeWithPda::try_accounts(&program_id(), &records).unwrap();
        assert_eq!(accounts.payer.record(), &records[0]);
        assert_eq!(accounts.state.record(), &records[1]);
        assert_eq!(accounts.system_program.record(), &records[2]);
        initialize_with_pda(Context { program_id: program_id(), accounts }).unwrap()
    };
    assert_eq!(state, State { count: 0 });
    assert_eq!(run_initialize_with_pda(&program_id(), &records), Ok(State { count: 0 }));
    state.install(&mut records[1], &program_id());
    assert_eq!(records[1].owner, program_id());
    assert_eq!(records[1].address, state_address());
    assert_eq!(records[1].data.len(), STATE_LEN);
    assert_eq!(records[1].data[..8], STATE_TAG);
    assert_eq!(records[1].data[8..], [0u8; 8]);
    assert_eq!(State::from_bytes(&records[1].data), Some(State { count: 0 }));
    assert!(!records[1].is_uninitialized());
    assert!(validate(&records[1], &set("state", vec![Constraint::Uninitialized]), &program_id())
        .is_err());
    assert_eq!(
        InitializeWithPda::try_accounts(&program_id(), &records).err(),
        Some(violation(ViolationKind::InitState, "state"))
    );
    assert_eq!(
        run_initialize_with_pda(&program_id(), &records),
        Err(violation(ViolationKind::InitState, "state"))
    );
}

#[test]
fn install_changes_owner_and_data_only() {
    let mut account = record(Address::new([8u8; 32]), false, true);
    State { count: 9 }.install(&mut account, &program_id());
    let mut expected = record(Address::new([8u8; 32]), false, true);
    expected.owner = program_id();
    expected.data = vec![216, 146, 107, 94, 104, 75, 182, 177, 9, 0, 0, 0, 0, 0, 0, 0];
    assert_eq!(account, expected);
}

#[test]
fn initialize_with_pda_wants_the_derived_state_address() {
    let records = vec![payer(), record(Address::new([8u8; 32]), false, true), system_program()];
    assert_eq!(
        InitializeWithPda::try_accounts(&program_id(), &records).err(),
        Some(violation(ViolationKind::Derivation, "state"))
    );
    let other_payer = record(Address::new([6u8; 32]), true, true);
    let records = vec![other_payer, record(state_address(), false, true), system_program()];
    assert_eq!(
        run_initialize_with_pda(&program_id(), &records),
        Err(violation(ViolationKind::Derivation, "state"))
    );
}

#[test]
fn initialize_with_pda_wants_a_signing_payer() {
    let mut unsigned = payer();
    unsigned.is_signer = false;
    let records = vec![unsigned, record(state_address(), false, true), system_program()];
    assert_eq!(
        InitializeWithPda::try_accounts(&program_id(), &records).err(),
        Some(violation(ViolationKind::Signer, "payer"))
    );
}

#[test]
fn initialize_with_pda_wants_the_system_program() {
    let state = record(state_address(), false, true);
    let records = vec![payer(), state.clone(), program(Address::new([9u8; 32]))];
    assert_eq!(
        run_initialize_with_pda(&program_id(), &records),
        Err(violation(ViolationKind::Address, "system_program"))
    );
    let records = vec![payer(), state, record(system_program_id(), false, false)];
    assert_eq!(
        run_initialize_with_pda(&program_id(), &records),
        Err(violation(ViolationKind::Executable, "system_program"))
    );
}

#[test]
fn initialize_with_pda_wants_all_its_accounts() {
    let none: Vec<AccountRecord> = vec![];
    assert_eq!(
        InitializeWithPda::try_accounts(&program_id(), &none).err(),
        Some(EngineError::MissingAccount { slot: "payer".to_string() })
    );
    let one = vec![payer()];
    assert_eq!(
        InitializeWithPda::try_accounts(&program_id(), &one).err(),
        Some(EngineError::MissingAccount { slot: "state".to_string() })
    );
    let two = vec![payer(), record(state_address(), false, true)];
    assert_eq!(
        run_initialize_with_pda(&program_id(), &two),
        Err(EngineError::MissingAccount { slot: "system_program".to_string() })
    );
}

#[test]
fn transfer_with_cpi_describes_the_system_transfer() {
    let records = vec![payer(), recipient(), system_program()];
    let accounts = TransferWithCpi::try_accounts(&program_id(), &records).unwrap();
    let descriptor =
        transfer_with_cpi(Context { program_id: program_id(), accounts }, 1_000).unwrap();
    assert_eq!(descriptor.program_id, system_program_id());
    assert_eq!(descriptor.program_id, records[2].address);
    assert_eq!(descriptor.payload, vec![2, 0, 0, 0, 232, 3, 0, 0, 0, 0, 0, 0]);
    assert_eq!(
        descriptor.accounts,
        vec![
            AccountMeta { address: records[0].address, is_writable: true, is_signer: true },
            AccountMeta { address: records[1].address, is_writable: true, is_signer: false },
        ]
    );
    assert!(descriptor.authorities.is_empty());
    assert_eq!(run_transfer_with_cpi(&program_id(), &records, 1_000), Ok(descriptor));
}

#[test]
fn transfer_with_cpi_agrees_with_the_ledger_sdk() {
    let records = vec![payer(), recipient(), system_program()];
    for amount in [0u64, 1, 255, 256, 1 << 40, u64::MAX] {
        let descriptor = run_transfer_with_cpi(&program_id(), &records, amount).unwrap();
        let by_sdk = system_instruction::transfer(
            &Pubkey::new_from_array([7u8; 32]),
            &Pubkey::new_from_array([8u8; 32]),
            amount,
        );
        assert_eq!(descriptor.program_id.to_bytes(), by_sdk.program_id.to_bytes());
        assert_eq!(descriptor.payload, by_sdk.data);
        assert_eq!(descriptor.payload[4..], amount.to_le_bytes());
        assert_eq!(descriptor.accounts.len(), by_sdk.accounts.len());
        for (ours, theirs) in descriptor.accounts.iter().zip(by_sdk.accounts.iter()) {
            assert_eq!(ours.address.to_bytes(), theirs.pubkey.to_bytes());
            assert_eq!(ours.is_signer, theirs.is_signer);
            assert_eq!(ours.is_writable, theirs.is_writable);
        }
    }
}

#[test]
fn transfer_with_cpi_declares_its_slots() {
    assert_eq!(
        TransferWithCpi::slots(),
        vec![
            payer_set(),
            set("recipient", vec![Constraint::Writable]),
            program_set("system_program", system_program_id()),
        ]
    );
}

#[test]
fn transfer_with_cpi_wants_valid_accounts() {
    let mut unsigned = payer();
    unsigned.is_signer = false;
    let records = vec![unsigned, recipient(), system_program()];
    assert_eq!(
        TransferWithCpi::try_accounts(&program_id(), &records).err(),
        Some(violation(ViolationKind::Signer, "payer"))
    );
    let mut read_only = recipient();
    read_only.is_writable = false;
    let records = vec![payer(), read_only, system_program()];
    assert_eq!(
        run_transfer_with_cpi(&program_id(), &records, 5),
        Err(violation(ViolationKind::Writable, "recipient"))
    );
    let records = vec![payer()];
    assert_eq!(
        run_transfer_with_cpi(&program_id(), &records, 5),
        Err(EngineError::MissingAccount { slot: "recipient".to_string() })
    );
}

#[test]
fn transfer_with_cpi_wants_the_system_program() {
    let impostor = program(Address::new([9u8; 32]));
    let records = vec![payer(), recipient(), impostor];
    assert_eq!(
        TransferWithCpi::try_accounts(&program_id(), &records).err(),
        Some(violation(ViolationKind::Address, "system_program"))
    );
    assert_eq!(
        run_transfer_with_cpi(&program_id(), &records, 5),
        Err(violation(ViolationKind::Address, "system_program"))
    );
    let idle = record(system_program_id(), false, false);
    let records = vec![payer(), recipient(), idle];
    assert_eq!(
        run_transfer_with_cpi(&program_id(), &records, 5),
        Err(violation(ViolationKind::Executable, "system_program"))
    );
    let records = vec![payer(), recipient(), program(token_program_id())];
    assert_eq!(
        run_cpi_transfer(&program_id(), &records, 5),
        Err(violation(ViolationKind::Address, "system_program"))
    );
    let records = vec![payer(), recipient()];
    assert_eq!(
        run_cpi_transfer(&program_id(), &records, 5),
        Err(EngineError::MissingAccount { slot: "system_program".to_string() })
    );
}

#[test]
fn cpi_transfer_is_the_same_transfer() {
    let records = vec![payer(), recipient(), system_program()];
    let accounts = InitializeWithCpi::try_accounts(&program_id(), &records).unwrap();
    let one = cpi_transfer(Context { program_id: program_id(), accounts }, 77).unwrap();
    let two = transfer_with_cpi(Context { program_id: program_id(), accounts }, 77).unwrap();
    assert_eq!(one, two);
    assert_eq!(one.payload, vec![2, 0, 0, 0, 77, 0, 0, 0, 0, 0, 0, 0]);
    assert_eq!(run_cpi_transfer(&program_id(), &records, 77), Ok(one));
}

#[test]
fn token_mint_declares_its_slots() {
    assert_eq!(
        InitializeToken::slots(),
        vec![
            payer_set(),
            set("mint", vec![Constraint::Writable, Constraint::Uninitialized]),
            program_set("token_program", token_program_id()),
            program_set("system_program", system_program_id()),
            set("rent", vec![Constraint::HasAddress(rent_sysvar_id())]),
        ]
    );
}

#[test]
fn token_mint_instructions_take_valid_accounts() {
    let records = token_records();
    let accounts = InitializeToken::try_accounts(&program_id(), &records).unwrap();
    assert_eq!(accounts.payer.record(), &records[0]);
    assert_eq!(accounts.mint.record(), &records[1]);
    assert_eq!(accounts.token_program.record(), &records[2]);
    assert_eq!(accounts.system_program.record(), &records[3]);
    assert_eq!(accounts.rent.record(), &records[4]);
    assert_eq!(initialize_token_mint(Context { program_id: program_id(), accounts }), Ok(()));
    assert_eq!(mint_tokens(Context { program_id: program_id(), accounts }, 5), Ok(()));
    assert_eq!(run_initialize_token_mint(&program_id(), &records), Ok(()));
    assert_eq!(run_mint_tokens(&program_id(), &records, 5), Ok(()));
}

#[test]
fn token_mint_wants_a_blank_writable_mint() {
    let mut records = token_records();
    records[1].data = vec![1u8; 82];
    assert_eq!(
        InitializeToken::try_accounts(&program_id(), &records).err(),
        Some(violation(ViolationKind::InitState, "mint"))
    );
    let mut records = token_records();
    records[1].is_writable = false;
    assert_eq!(
        run_initialize_token_mint(&program_id(), &records),
        Err(violation(ViolationKind::Writable, "mint"))
    );
    let mut records = token_records();
    records.pop();
    assert_eq!(
        run_mint_tokens(&program_id(), &records, 5),
        Err(EngineError::MissingAccount { slot: "rent".to_string() })
    );
}

#[test]
fn token_mint_wants_its_programs_and_the_rent_sysvar() {
    let mut records = token_records();
    records[2] = program(system_program_id());
    assert_eq!(
        run_initialize_token_mint(&program_id(), &records),
        Err(violation(ViolationKind::Address, "token_program"))
    );
    let mut records = token_records();
    records[2].is_executable = false;
    assert_eq!(
        run_initialize_token_mint(&program_id(), &records),
        Err(violation(ViolationKind::Executable, "token_program"))
    );
    let mut records = token_records();
    records[3] = program(token_program_id());
    assert_eq!(
        run_mint_tokens(&program_id(), &records, 5),
        Err(violation(ViolationKind::Address, "system_program"))
    );
    let mut records = token_records();
    records[3].is_executable = false;
    assert_eq!(
        run_mint_tokens(&program_id(), &records, 5),
        Err(violation(ViolationKind::Executable, "system_program"))
    );
    let mut records = token_records();
    records[4].address = Address::new([9u8; 32]);
    assert_eq!(
        run_initialize_token_mint(&program_id(), &records),
        Err(violation(ViolationKind::Address, "rent"))
    );
}
