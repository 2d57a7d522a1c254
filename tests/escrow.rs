use escrow::error::{EscrowError, ProcessError};
use escrow::instruction::EscrowInstruction;
use escrow::processor::{AccountState, Processor, Step, TokenOp};
use escrow::state::{same_key, Escrow, Key, ESCROW_LEN};
use solana_program::pubkey::Pubkey;

const TOKEN_ACCOUNT_LEN: usize = 165;

fn key(n: u8) -> Key {
    [n; 32]
}

fn token_id() -> Key {
    spl_token::id().to_bytes()
}

fn program_id() -> Key {
    key(200)
}

fn authority() -> (Key, u8) {
    let (pda, bump) =
        Pubkey::find_program_address(&[b"escrow"], &Pubkey::new_from_array(program_id()));
    (pda.to_bytes(), bump)
}

fn account(k: Key, owner: Key, is_signer: bool, lamports: u64, data: Vec<u8>) -> AccountState {
    AccountState { key: k, owner, is_signer, lamports, data }
}

fn init_data(amount: u64) -> Vec<u8> {
    let mut d = vec![0u8];
    d.extend_from_slice(&amount.to_le_bytes());
    d
}

fn exchange_data(amount: u64) -> Vec<u8> {
    let mut d = vec![1u8];
    d.extend_from_slice(&amount.to_le_bytes());
    d
}

fn token_account_data(amount: u64, state: u8) -> Vec<u8> {
    let mut d = vec![0u8; TOKEN_ACCOUNT_LEN];
    d[64..72].copy_from_slice(&amount.to_le_bytes());
    d[108] = state;
    d
}

fn init_accounts() -> Vec<AccountState> {
    vec![
        account(key(1), key(0), true, 10, vec![]),
        account(key(2), token_id(), false, 5, vec![]),
        account(key(3), token_id(), false, 5, vec![]),
        account(key(4), program_id(), false, 2_000, vec![0u8; ESCROW_LEN]),
        account(key(5), key(0), false, 1, vec![]),
        account(token_id(), key(0), false, 1, vec![]),
    ]
}

fn open_record(amount: u64) -> Vec<u8> {
    Escrow {
        is_initialized: true,
        initializer_pubkey: key(1),
        temp_token_account_pubkey: key(2),
        initializer_token_to_receive_account_pubkey: key(3),
        expected_amount: amount,
    }
    .to_bytes()
}

fn exchange_accounts(custody_balance: u64, record: Vec<u8>) -> Vec<AccountState> {
    let (pda, _) = authority();
    vec![
        account(key(10), key(0), true, 10, vec![]),
        account(key(11), token_id(), false, 5, vec![]),
        account(key(12), token_id(), false, 5, vec![]),
        account(key(2), token_id(), false, 7, token_account_data(custody_balance, 1)),
        account(key(1), key(0), false, 100, vec![]),
        account(key(3), token_id(), false, 5, vec![]),
        account(key(4), program_id(), false, 2_000, record),
        account(token_id(), key(0), false, 1, vec![]),
        account(pda, key(0), false, 0, vec![]),
    ]
}

fn ops(plan: &[Step]) -> Vec<Option<(TokenOp, Key, Option<u8>)>> {
    plan.iter()
        .map(|s| match s {
            Step::Invoke(c) => Some((c.op, c.program, c.signer_bump)),
            Step::Settle { .. } => None,
        })
        .collect()
}

#[test]
fn decode_init_escrow() {
    let mut d = vec![0u8];
    d.extend_from_slice(&1000u64.to_le_bytes());
    assert_eq!(EscrowInstruction::unpack(&d), Ok(EscrowInstruction::InitEscrow { amount: 1000 }));
}

#[test]
fn decode_exchange_ignores_trailing_bytes() {
    let d = [1u8, 0x01, 0x02, 0, 0, 0, 0, 0, 0x80, 9, 9];
    assert_eq!(
        EscrowInstruction::unpack(&d),
        Ok(EscrowInstruction::Exchange { amount: 0x8000_0000_0000_0201 })
    );
}

#[test]
fn decode_rejects_unknown_tag() {
    let d = [2u8, 0, 0, 0, 0, 0, 0, 0, 0];
    assert_eq!(EscrowInstruction::unpack(&d), Err(EscrowError::InvalidInstruction));
}

#[test]
fn decode_rejects_empty() {
    assert_eq!(EscrowInstruction::unpack(&[]), Err(EscrowError::InvalidInstruction));
}

#[test]
fn decode_rejects_short_amount() {
    let d = [0u8, 1, 2, 3, 4, 5, 6, 7];
    assert_eq!(EscrowInstruction::unpack(&d), Err(EscrowError::InvalidInstruction));
}

#[test]
fn error_codes_are_stable() {
    assert_eq!(EscrowError::InvalidInstruction.code(), 0);
    assert_eq!(EscrowError::NotRentExempt.code(), 1);
    assert_eq!(EscrowError::ExpectedAmountMismatch.code(), 2);
    assert_eq!(EscrowError::AmountOverflow.code(), 3);
}

#[test]
fn record_round_trip() {
    let bytes = open_record(0x0102_0304_0506_0708);
    assert_eq!(bytes.len(), ESCROW_LEN);
    assert_eq!(bytes[0], 1);
    assert_eq!(bytes[97], 0x08);
    assert_eq!(bytes[104], 0x01);
    let e = Escrow::unpack(&bytes).unwrap();
    assert!(e.is_initialized);
    assert_eq!(e.initializer_pubkey, key(1));
    assert_eq!(e.temp_token_account_pubkey, key(2));
    assert_eq!(e.initializer_token_to_receive_account_pubkey, key(3));
    assert_eq!(e.expected_amount, 0x0102_0304_0506_0708);
}

#[test]
fn record_unpack_modes() {
    let zero = vec![0u8; ESCROW_LEN];
    let e = Escrow::unpack_unchecked(&zero).unwrap();
    assert!(!e.is_initialized);
    assert_eq!(e.expected_amount, 0);
    assert_eq!(Escrow::unpack(&zero), Err(ProcessError::UninitializedAccount));
    assert_eq!(Escrow::unpack_unchecked(&[0u8; 104]), Err(ProcessError::InvalidAccountData));
    let mut bad_flag = zero.clone();
    bad_flag[0] = 2;
    assert_eq!(Escrow::unpack_unchecked(&bad_flag), Err(ProcessError::InvalidAccountData));
}

#[test]
fn record_pack_needs_exact_size() {
    let e = Escrow::unpack_unchecked(&open_record(5)).unwrap();
    let mut short = vec![7u8; 10];
    assert_eq!(e.pack(&mut short), Err(ProcessError::InvalidAccountData));
    assert_eq!(short, vec![7u8; 10]);
    let mut exact = vec![0u8; ESCROW_LEN];
    assert_eq!(e.pack(&mut exact), Ok(()));
    assert_eq!(exact, open_record(5));
}

#[test]
fn keys_compare_bytewise() {
    assert!(same_key(&key(3), &key(3)));
    let mut k = key(3);
    k[31] = 4;
    assert!(!same_key(&key(3), &k));
}

#[test]
fn init_escrow_stores_record_and_hands_over_custody() {
    let mut accs = init_accounts();
    let plan = Processor::process(&program_id(), &mut accs, &init_data(1000), Some(1_000)).unwrap();
    assert_eq!(accs[3].data, open_record(1000));
    assert_eq!(accs[3].lamports, 2_000);
    assert_eq!(accs[0].lamports, 10);
    let (pda, _) = authority();
    assert_eq!(
        ops(&plan),
        vec![Some((
            TokenOp::SetOwner { account: key(2), new_owner: pda, owner: key(1) },
            token_id(),
            None
        ))]
    );
    assert_ne!(pda, key(1));
}

#[test]
fn init_escrow_twice_is_rejected() {
    let mut accs = init_accounts();
    Processor::process(&program_id(), &mut accs, &init_data(1000), Some(1_000)).unwrap();
    let stored = accs[3].data.clone();
    let r = Processor::process(&program_id(), &mut accs, &init_data(55), Some(1_000));
    assert_eq!(r.unwrap_err(), ProcessError::AccountAlreadyInitialized);
    assert_eq!(accs[3].data, stored);
}

#[test]
fn init_escrow_needs_initializer_signature() {
    let mut accs = init_accounts();
    accs[0].is_signer = false;
    let r = Processor::process(&program_id(), &mut accs, &init_data(1), Some(1_000));
    assert_eq!(r.unwrap_err(), ProcessError::MissingRequiredSignature);
    assert_eq!(accs[3].data, vec![0u8; ESCROW_LEN]);
}

#[test]
fn init_escrow_needs_token_owned_receive_account() {
    let mut accs = init_accounts();
    accs[2].owner = key(9);
    let r = Processor::process(&program_id(), &mut accs, &init_data(1), Some(1_000));
    assert_eq!(r.unwrap_err(), ProcessError::IncorrectProgramId);
}

#[test]
fn init_escrow_needs_rent_exemption() {
    let mut accs = init_accounts();
    let r = Processor::process(&program_id(), &mut accs, &init_data(1), Some(2_001));
    assert_eq!(r.unwrap_err(), ProcessError::Custom(EscrowError::NotRentExempt));
    let r = Processor::process(&program_id(), &mut accs, &init_data(1), None);
    assert_eq!(r.unwrap_err(), ProcessError::InvalidArgument);
    let plan = Processor::process(&program_id(), &mut accs, &init_data(1), Some(2_000));
    assert!(plan.is_ok());
}

#[test]
fn init_escrow_needs_all_accounts() {
    let mut accs = init_accounts();
    accs.truncate(5);
    let r = Processor::process(&program_id(), &mut accs, &init_data(1), Some(1_000));
    assert_eq!(r.unwrap_err(), ProcessError::NotEnoughAccountKeys);
    assert_eq!(accs[3].data, vec![0u8; ESCROW_LEN]);
}

#[test]
fn init_escrow_needs_the_token_program() {
    let mut accs = init_accounts();
    accs[5].key = key(8);
    let r = Processor::process(&program_id(), &mut accs, &init_data(1), Some(1_000));
    assert_eq!(r.unwrap_err(), ProcessError::IncorrectProgramId);
    assert_eq!(accs[3].data, vec![0u8; ESCROW_LEN]);
}

#[test]
fn bad_instruction_is_reported_as_custom_error() {
    let mut accs = init_accounts();
    let r = Processor::process(&program_id(), &mut accs, &[3u8], Some(1_000));
    assert_eq!(r.unwrap_err(), ProcessError::Custom(EscrowError::InvalidInstruction));
}

#[test]
fn init_then_exchange_plans_the_whole_trade() {
    let mut first = init_accounts();
    Processor::process(&program_id(), &mut first, &init_data(1000), Some(1_000)).unwrap();
    let mut accs = exchange_accounts(300, first[3].data.clone());
    let plan = Processor::process(&program_id(), &mut accs, &exchange_data(300), None).unwrap();
    let (pda, bump) = authority();
    assert_eq!(
        ops(&plan),
        vec![
            Some((
                TokenOp::Transfer {
                    source: key(11),
                    destination: key(3),
                    authority: key(10),
                    amount: 1000
                },
                token_id(),
                None
            )),
            Some((
                TokenOp::Transfer { source: key(2), destination: key(12), authority: pda, amount: 300 },
                token_id(),
                Some(bump)
            )),
            Some((TokenOp::Close { account: key(2), destination: key(1), owner: pda }, token_id(), Some(bump))),
            None,
        ]
    );
    assert!(matches!(plan[3], Step::Settle { escrow: 6, initializer: 4 }));
    let mut initializer = accs[4].lamports;
    let mut escrow = accs[6].lamports;
    assert_eq!(Processor::settle(&mut initializer, &mut escrow), Ok(()));
    assert_eq!(initializer, 2_100);
    assert_eq!(escrow, 0);
}

#[test]
fn exchange_rejects_amount_mismatch() {
    let accs = exchange_accounts(300, open_record(1000));
    let r = Processor::process_exchange(&accs, 299, &program_id());
    assert_eq!(r.unwrap_err(), ProcessError::Custom(EscrowError::ExpectedAmountMismatch));
}

#[test]
fn exchange_rejects_foreign_accounts() {
    for i in [3usize, 4, 5] {
        let mut accs = exchange_accounts(300, open_record(1000));
        accs[i].key = key(99);
        let r = Processor::process_exchange(&accs, 300, &program_id());
        assert_eq!(r.unwrap_err(), ProcessError::InvalidAccountData);
    }
}

#[test]
fn exchange_rejects_unopened_escrow() {
    let accs = exchange_accounts(300, vec![0u8; ESCROW_LEN]);
    let r = Processor::process_exchange(&accs, 300, &program_id());
    assert_eq!(r.unwrap_err(), ProcessError::UninitializedAccount);
}

#[test]
fn exchange_reads_custody_account_format() {
    let mut accs = exchange_accounts(300, open_record(1000));
    accs[3].data = token_account_data(300, 0);
    let r = Processor::process_exchange(&accs, 300, &program_id());
    assert_eq!(r.unwrap_err(), ProcessError::UninitializedAccount);
    accs[3].data = vec![0u8; 10];
    let r = Processor::process_exchange(&accs, 300, &program_id());
    assert_eq!(r.unwrap_err(), ProcessError::InvalidAccountData);
    let mut bad_tag = token_account_data(300, 1);
    bad_tag[72] = 2;
    accs[3].data = bad_tag;
    let r = Processor::process_exchange(&accs, 300, &program_id());
    assert_eq!(r.unwrap_err(), ProcessError::InvalidAccountData);
    accs[3].data = token_account_data(300, 2);
    assert!(Processor::process_exchange(&accs, 300, &program_id()).is_ok());
}

#[test]
fn exchange_needs_taker_signature_and_accounts() {
    let mut accs = exchange_accounts(300, open_record(1000));
    accs[0].is_signer = false;
    let r = Processor::process_exchange(&accs, 300, &program_id());
    assert_eq!(r.unwrap_err(), ProcessError::MissingRequiredSignature);
    let mut accs = exchange_accounts(300, open_record(1000));
    accs.truncate(8);
    let r = Processor::process_exchange(&accs, 300, &program_id());
    assert_eq!(r.unwrap_err(), ProcessError::NotEnoughAccountKeys);
}

#[test]
fn exchange_needs_the_token_program() {
    let mut accs = exchange_accounts(300, open_record(1000));
    accs[7].key = key(77);
    let r = Processor::process_exchange(&accs, 300, &program_id());
    assert_eq!(r.unwrap_err(), ProcessError::IncorrectProgramId);
}

#[test]
fn exchange_with_given_balance() {
    let accs = exchange_accounts(0, open_record(1000));
    let (pda, bump) = authority();
    let plan = Processor::exchange_with_balance(&accs, 42, Ok(42), Some((pda, bump))).unwrap();
    assert_eq!(plan.len(), 4);
    let r = Processor::exchange_with_balance(&accs, 42, Ok(42), None);
    assert_eq!(r.unwrap_err(), ProcessError::InvalidSeeds);
    let r = Processor::exchange_with_balance(&accs, 42, Err(ProcessError::InvalidAccountData), None);
    assert_eq!(r.unwrap_err(), ProcessError::InvalidAccountData);
}

#[test]
fn settle_overflow_changes_nothing() {
    let mut initializer = u64::MAX - 10;
    let mut escrow = 11u64;
    assert_eq!(Processor::settle(&mut initializer, &mut escrow), Err(EscrowError::AmountOverflow));
    assert_eq!(initializer, u64::MAX - 10);
    assert_eq!(escrow, 11);
    let mut escrow = 10u64;
    assert_eq!(Processor::settle(&mut initializer, &mut escrow), Ok(()));
    assert_eq!(initializer, u64::MAX);
    assert_eq!(escrow, 0);
}

#[test]
fn planned_instructions_are_the_token_programs() {
    let pk = Pubkey::new_from_array;
    let (pda, _) = authority();
    let mut first = init_accounts();
    let plan = Processor::process(&program_id(), &mut first, &init_data(1000), Some(1_000)).unwrap();
    let expected = spl_token::instruction::set_authority(
        &spl_token::id(),
        &pk(key(2)),
        Some(&pk(pda)),
        spl_token::instruction::AuthorityType::AccountOwner,
        &pk(key(1)),
        &[&pk(key(1))],
    )
    .unwrap();
    match &plan[0] {
        Step::Invoke(c) => assert_eq!(c.instruction, expected),
        Step::Settle { .. } => panic!("expected a token call"),
    }

    let accs = exchange_accounts(300, first[3].data.clone());
    let plan = Processor::process_exchange(&accs, 300, &program_id()).unwrap();
    let pay = spl_token::instruction::transfer(
        &spl_token::id(),
        &pk(key(11)),
        &pk(key(3)),
        &pk(key(10)),
        &[&pk(key(10))],
        1000,
    )
    .unwrap();
    let release = spl_token::instruction::transfer(
        &spl_token::id(),
        &pk(key(2)),
        &pk(key(12)),
        &pk(pda),
        &[&pk(pda)],
        300,
    )
    .unwrap();
    let close = spl_token::instruction::close_account(
        &spl_token::id(),
        &pk(key(2)),
        &pk(key(1)),
        &pk(pda),
        &[&pk(pda)],
    )
    .unwrap();
    let built: Vec<_> = plan
        .iter()
        .filter_map(|s| match s {
            Step::Invoke(c) => Some(c.instruction.clone()),
            Step::Settle { .. } => None,
        })
        .collect();
    assert_eq!(built, vec![pay, release, close]);
}
