use program_derived_address::account::InvokeAccount;
use program_derived_address::address::{authorize, derive_address};
use program_derived_address::error::CustomError;
use program_derived_address::instruction::CustomInstruction;
use program_derived_address::processor::{AccountRef, Processor};
use solana_program::pubkey::Pubkey;

const PROGRAM: [u8; 32] = [7u8; 32];

fn account(key: [u8; 32], len: usize) -> AccountRef {
    AccountRef { key, data: vec![0u8; len] }
}

fn create_input(seeds: Vec<u8>, nonce: u8, space: u16) -> Vec<u8> {
    CustomInstruction::CreateAccount { seeds, nonce, space }.encode()
}

fn state_of(a: &AccountRef) -> InvokeAccount {
    InvokeAccount::unpack(&a.data).unwrap()
}

#[test]
fn derive_is_deterministic() {
    let a = derive_address(&PROGRAM, &[1, 2, 3]);
    let b = derive_address(&PROGRAM, &[1, 2, 3]);
    assert!(a.is_some());
    assert_eq!(a, b);
}

#[test]
fn derive_matches_solana() {
    let (addr, bump) = derive_address(&PROGRAM, &[1, 2, 3]).unwrap();
    let (expected, expected_bump) =
        Pubkey::find_program_address(&[&[1, 2, 3]], &Pubkey::new_from_array(PROGRAM));
    assert_eq!(addr, expected.to_bytes());
    assert_eq!(bump, expected_bump);
    assert_ne!(addr, PROGRAM);
}

#[test]
fn derive_depends_on_seeds() {
    let a = derive_address(&PROGRAM, &[1, 2, 3]).unwrap();
    let b = derive_address(&PROGRAM, &[3, 2, 1]).unwrap();
    assert_ne!(a.0, b.0);
}

#[test]
fn authorize_accepts_derived_address() {
    let (addr, bump) = derive_address(&PROGRAM, &[4, 5]).unwrap();
    assert_eq!(authorize(&PROGRAM, &[4, 5], bump, &addr), Ok(()));
    assert_eq!(
        authorize(&PROGRAM, &[4, 5], bump, &[0u8; 32]),
        Err(CustomError::AuthorizationMismatch)
    );
    assert_eq!(
        authorize(&PROGRAM, &[4, 6], bump, &addr),
        Err(CustomError::AuthorizationMismatch)
    );
}

#[test]
fn create_account_scenario_then_invoke() {
    let seeds = vec![0x01u8, 0x02, 0x03];
    let (target, nonce) = derive_address(&PROGRAM, &seeds).unwrap();
    let payer = [9u8; 32];
    let mut accounts = vec![
        account(payer, 0),
        account(target, 0),
        account([2u8; 32], 0),
        account([0u8; 32], 0),
    ];
    let input = create_input(seeds.clone(), nonce, 16);
    let req = Processor::process(&PROGRAM, &mut accounts, &input, 100).unwrap().unwrap();
    assert_eq!(req.payer, payer);
    assert_eq!(req.target, target);
    assert_eq!(req.space, 16);
    assert_eq!(req.owner, PROGRAM);
    assert_eq!(req.seeds, seeds);
    assert_eq!(req.nonce, nonce);
    assert!(accounts.iter().all(|a| a.data.is_empty()));

    // The host allocates the account zeroed.
    let mut created = vec![account(target, 16)];
    assert_eq!(state_of(&created[0]), InvokeAccount { count: 0, timestamp: 0 });
    let r = Processor::process(&PROGRAM, &mut created, &[1], 1_650_000_000);
    assert_eq!(r.map(|o| o.is_none()), Ok(true));
    assert_eq!(state_of(&created[0]), InvokeAccount { count: 1, timestamp: 1_650_000_000 });
    assert_eq!(created[0].key, target);
}

#[test]
fn create_account_with_two_accounts_fails() {
    let (target, nonce) = derive_address(&PROGRAM, &[1, 2, 3]).unwrap();
    let mut accounts = vec![account([9u8; 32], 0), account(target, 0)];
    let input = create_input(vec![1, 2, 3], nonce, 16);
    let r = Processor::process(&PROGRAM, &mut accounts, &input, 0);
    assert!(matches!(r, Err(CustomError::AccountMissing)));
}

#[test]
fn create_account_with_wrong_target_fails() {
    let (_, nonce) = derive_address(&PROGRAM, &[1, 2, 3]).unwrap();
    let accounts = vec![
        account([9u8; 32], 0),
        account([8u8; 32], 0),
        account([2u8; 32], 0),
        account([0u8; 32], 0),
    ];
    let r = Processor::process_create_account(&PROGRAM, &accounts, vec![1, 2, 3], nonce, 16);
    assert!(matches!(r, Err(CustomError::AuthorizationMismatch)));
}

#[test]
fn create_account_with_long_seed_fails() {
    let accounts = vec![
        account([9u8; 32], 0),
        account([8u8; 32], 0),
        account([2u8; 32], 0),
        account([0u8; 32], 0),
    ];
    let r = Processor::process_create_account(&PROGRAM, &accounts, vec![0u8; 33], 255, 16);
    assert!(matches!(r, Err(CustomError::AuthorizationMismatch)));
}

#[test]
fn unknown_tag_touches_nothing() {
    let mut accounts = vec![AccountRef { key: [1u8; 32], data: vec![5u8; 16] }];
    let r = Processor::process(&PROGRAM, &mut accounts, &[9, 1, 2], 77);
    assert!(matches!(r, Err(CustomError::InvalidInstruction)));
    assert_eq!(accounts[0].data, vec![5u8; 16]);
    let r = Processor::process(&PROGRAM, &mut accounts, &[], 77);
    assert!(matches!(r, Err(CustomError::InvalidInstruction)));
}

#[test]
fn invoke_counts_each_call() {
    let mut accounts = vec![account([3u8; 32], 24)];
    for k in 1..=5u64 {
        let now = 1000 + k as i64;
        Processor::process_invoke(&mut accounts, now).unwrap();
        let s = state_of(&accounts[0]);
        assert_eq!(s.count, k);
        assert_eq!(s.timestamp, now);
    }
    assert_eq!(&accounts[0].data[16..], &[0u8; 8]);
}

#[test]
fn invoke_timestamps_follow_clock() {
    let mut accounts = vec![account([3u8; 32], 16)];
    let mut last = i64::MIN;
    for now in [5i64, 5, 9, 12] {
        Processor::process_invoke(&mut accounts, now).unwrap();
        let s = state_of(&accounts[0]);
        assert!(s.timestamp >= last);
        last = s.timestamp;
    }
    assert_eq!(state_of(&accounts[0]).count, 4);
}

#[test]
fn invoke_uninitialized_fails() {
    let mut accounts = vec![account([3u8; 32], 0)];
    assert_eq!(Processor::process_invoke(&mut accounts, 1), Err(CustomError::SchemaMismatch));
    let mut accounts = vec![account([3u8; 32], 15)];
    let r = Processor::process(&PROGRAM, &mut accounts, &[1], 1);
    assert!(matches!(r, Err(CustomError::SchemaMismatch)));
    assert_eq!(accounts[0].data, vec![0u8; 15]);
}

#[test]
fn invoke_wrong_arity_fails() {
    let mut accounts: Vec<AccountRef> = vec![];
    assert_eq!(Processor::process_invoke(&mut accounts, 1), Err(CustomError::AccountMissing));
    let mut accounts = vec![account([3u8; 32], 16), account([4u8; 32], 16)];
    assert_eq!(Processor::process_invoke(&mut accounts, 1), Err(CustomError::AccountMissing));
    assert_eq!(accounts[0].data, vec![0u8; 16]);
}

#[test]
fn invoke_counter_wraps_at_top() {
    let mut accounts = vec![account([3u8; 32], 16)];
    InvokeAccount { count: u64::MAX, timestamp: 3 }.pack_into(&mut accounts[0].data);
    Processor::process_invoke(&mut accounts, 4).unwrap();
    assert_eq!(state_of(&accounts[0]), InvokeAccount { count: 0, timestamp: 4 });
}
