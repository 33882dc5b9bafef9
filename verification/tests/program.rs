use zeke_contract::address::Address;
use zeke_contract::error::Error;
use zeke_contract::program::process_instruction;
use zeke_contract::program::Account;
use zeke_contract::schema::encode_counter;

fn program_id() -> Address {
    Address { bytes: [42; 32] }
}

fn stranger() -> Address {
    let mut bytes = [42; 32];
    bytes[31] = 43;
    Address { bytes }
}

fn owned_account(counter: u32) -> Account {
    Account { owner: program_id(), data: encode_counter(counter) }
}

#[test]
fn fresh_account_counts_one_then_two() {
    let mut accounts = vec![Account { owner: program_id(), data: vec![0, 0, 0, 0] }];
    assert_eq!(process_instruction(&program_id(), &mut accounts, &[]), Ok(()));
    assert_eq!(accounts[0].data, vec![1, 0, 0, 0]);
    assert_eq!(process_instruction(&program_id(), &mut accounts, &[]), Ok(()));
    assert_eq!(accounts[0].data, vec![2, 0, 0, 0]);
    assert_eq!(accounts[0].owner, program_id());
    assert_eq!(accounts.len(), 1);
}

#[test]
fn counter_carries_into_the_next_byte() {
    let mut accounts = vec![owned_account(255)];
    assert_eq!(process_instruction(&program_id(), &mut accounts, &[]), Ok(()));
    assert_eq!(accounts[0].data, vec![0, 1, 0, 0]);
}

#[test]
fn counter_wraps_at_the_largest_value() {
    let mut accounts = vec![owned_account(u32::MAX)];
    assert_eq!(process_instruction(&program_id(), &mut accounts, &[]), Ok(()));
    assert_eq!(accounts[0].data, vec![0, 0, 0, 0]);
}

#[test]
fn foreign_account_is_refused_and_left_alone() {
    let mut accounts = vec![Account { owner: stranger(), data: vec![5, 0, 0, 0] }];
    let before = accounts.clone();
    assert_eq!(
        process_instruction(&program_id(), &mut accounts, &[]),
        Err(Error::OwnershipMismatchError)
    );
    assert_eq!(accounts, before);
}

#[test]
fn foreign_account_with_malformed_data_is_an_ownership_error() {
    let mut accounts = vec![Account { owner: stranger(), data: vec![5, 0] }];
    let before = accounts.clone();
    assert_eq!(
        process_instruction(&program_id(), &mut accounts, &[]),
        Err(Error::OwnershipMismatchError)
    );
    assert_eq!(accounts, before);
}

#[test]
fn no_account_is_an_error() {
    let mut accounts: Vec<Account> = Vec::new();
    assert_eq!(
        process_instruction(&program_id(), &mut accounts, &[]),
        Err(Error::NotEnoughAccountKeys)
    );
    assert!(accounts.is_empty());
}

#[test]
fn short_data_is_a_schema_mismatch() {
    let mut accounts = vec![Account { owner: program_id(), data: vec![1, 2, 3] }];
    let before = accounts.clone();
    assert_eq!(
        process_instruction(&program_id(), &mut accounts, &[]),
        Err(Error::SchemaMismatchError { expected: 4, actual: 3 })
    );
    assert_eq!(accounts, before);
}

#[test]
fn long_data_is_a_schema_mismatch() {
    let mut accounts = vec![Account { owner: program_id(), data: vec![0; 8] }];
    let before = accounts.clone();
    assert_eq!(
        process_instruction(&program_id(), &mut accounts, &[]),
        Err(Error::SchemaMismatchError { expected: 4, actual: 8 })
    );
    assert_eq!(accounts, before);
}

#[test]
fn empty_data_is_a_schema_mismatch() {
    let mut accounts = vec![Account { owner: program_id(), data: Vec::new() }];
    assert_eq!(
        process_instruction(&program_id(), &mut accounts, &[]),
        Err(Error::SchemaMismatchError { expected: 4, actual: 0 })
    );
    assert!(accounts[0].data.is_empty());
}

#[test]
fn only_the_first_account_is_touched() {
    let mut accounts = vec![
        owned_account(9),
        owned_account(100),
        Account { owner: stranger(), data: vec![1, 2, 3] },
    ];
    assert_eq!(process_instruction(&program_id(), &mut accounts, &[]), Ok(()));
    assert_eq!(accounts[0], owned_account(10));
    assert_eq!(accounts[1], owned_account(100));
    assert_eq!(accounts[2], Account { owner: stranger(), data: vec![1, 2, 3] });
}

#[test]
fn instruction_data_is_not_read() {
    let mut plain = vec![owned_account(3)];
    let mut noisy = vec![owned_account(3)];
    assert_eq!(process_instruction(&program_id(), &mut plain, &[]), Ok(()));
    assert_eq!(process_instruction(&program_id(), &mut noisy, &[9, 9, 9]), Ok(()));
    assert_eq!(plain, noisy);
    assert_eq!(plain[0].data, vec![4, 0, 0, 0]);
}

#[test]
fn many_greetings_are_counted() {
    let mut accounts = vec![owned_account(0)];
    for _ in 0..300 {
        assert_eq!(process_instruction(&program_id(), &mut accounts, &[]), Ok(()));
    }
    assert_eq!(accounts[0].data, encode_counter(300));
    assert_eq!(accounts[0].data, vec![44, 1, 0, 0]);
}
