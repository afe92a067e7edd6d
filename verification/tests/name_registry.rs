//! End-to-end scenarios against the state machine, driven through the
//! dispatcher with an explicit record set, an explicit caller and an
//! explicit clock.

use instant_folio::error::NameRegistryError;
use instant_folio::instruction::NameRegistryInstruction;
use instant_folio::processor::{Processor, RecordSet};
use instant_folio::state::{
    Address, AddressAccount, NameAccount, PendingUpdateAccount, ProgramConfig,
};

const REGISTRATION_FEE: u64 = 1_000_000;
const HIGH_FEE: u64 = 2_000_000;
const COOLDOWN_PERIOD: i64 = 86400;
const NOW: i64 = 1_700_000_000;

fn addr(fill: u8) -> Address {
    Address { bytes: vec![fill; 32] }
}

fn fresh_records() -> RecordSet {
    RecordSet {
        name_record: NameAccount::default(),
        new_name_record: NameAccount::default(),
        address_record: AddressAccount::default(),
        pending_record: PendingUpdateAccount::default(),
        config: ProgramConfig::default(),
        caller_balance: 1_000_000_000,
        config_balance: 0,
    }
}

fn run(
    caller: &Address,
    now: i64,
    instruction: NameRegistryInstruction,
    records: &mut RecordSet,
) -> Result<Option<Vec<u8>>, NameRegistryError> {
    Processor::process(caller, now, instruction, records)
}

/// A record set with the config initialized by `initializer` at `fee`.
fn initialized_records(initializer: &Address, fee: u64) -> RecordSet {
    let mut records = fresh_records();
    run(
        initializer,
        NOW,
        NameRegistryInstruction::Initialize { registration_fee: fee },
        &mut records,
    )
    .unwrap();
    records
}

#[test]
fn test_initialize() {
    let initializer = addr(1);
    let records = initialized_records(&initializer, REGISTRATION_FEE);
    assert!(records.config.is_initialized);
    assert_eq!(records.config.owner, initializer);
    assert_eq!(records.config.registration_fee, REGISTRATION_FEE);
    assert_eq!(records.config.pending_owner, Address::zero());

    // A second initialization is refused.
    let mut records = records;
    let err = run(
        &addr(2),
        NOW,
        NameRegistryInstruction::Initialize { registration_fee: HIGH_FEE },
        &mut records,
    )
    .unwrap_err();
    assert_eq!(err, NameRegistryError::AlreadyInitialized);
    assert_eq!(records.config.owner, initializer);
}

#[test]
fn test_register_name() {
    let initializer = addr(1);
    let registrant = addr(2);
    let mut records = initialized_records(&initializer, REGISTRATION_FEE);
    let ret = run(
        &registrant,
        NOW,
        NameRegistryInstruction::RegisterName { name: "test-name".to_string() },
        &mut records,
    )
    .unwrap();
    assert_eq!(ret, None);
    assert!(records.name_record.is_initialized);
    assert_eq!(records.name_record.owner, registrant);
    assert_eq!(records.name_record.name, "test-name");
    assert_eq!(records.name_record.address, registrant);
    assert_eq!(records.name_record.cooldown_until, NOW + COOLDOWN_PERIOD);
    assert!(records.address_record.is_initialized);
    assert_eq!(records.address_record.name, "test-name");
    assert_eq!(records.caller_balance, 1_000_000_000 - REGISTRATION_FEE);
    assert_eq!(records.config_balance, REGISTRATION_FEE);
}

#[test]
fn test_register_name_taken() {
    let initializer = addr(1);
    let registrant = addr(2);
    let mut records = initialized_records(&initializer, REGISTRATION_FEE);
    run(
        &registrant,
        NOW,
        NameRegistryInstruction::RegisterName { name: "test-name".to_string() },
        &mut records,
    )
    .unwrap();

    // The same name again, from anyone, fails NameTaken.
    let mut second = records.clone();
    second.address_record = AddressAccount::default();
    let err = run(
        &addr(3),
        NOW,
        NameRegistryInstruction::RegisterName { name: "test-name".to_string() },
        &mut second,
    )
    .unwrap_err();
    assert_eq!(err, NameRegistryError::NameTaken);

    // A different name for an address that already holds one fails
    // NameAlreadyRegistered.
    let mut third = records.clone();
    third.name_record = NameAccount::default();
    let err = run(
        &registrant,
        NOW,
        NameRegistryInstruction::RegisterName { name: "other-name".to_string() },
        &mut third,
    )
    .unwrap_err();
    assert_eq!(err, NameRegistryError::NameAlreadyRegistered);
}

#[test]
fn test_request_address_update() {
    let initializer = addr(1);
    let registrant = addr(2);
    let target = addr(3);
    let mut records = initialized_records(&initializer, REGISTRATION_FEE);
    run(
        &registrant,
        NOW,
        NameRegistryInstruction::RegisterName { name: "test-name".to_string() },
        &mut records,
    )
    .unwrap();
    run(
        &registrant,
        NOW + COOLDOWN_PERIOD,
        NameRegistryInstruction::RequestAddressUpdate { new_address: target.clone() },
        &mut records,
    )
    .unwrap();
    assert!(records.pending_record.is_initialized);
    assert_eq!(records.pending_record.new_address, target);
}

#[test]
fn test_request_address_update_errors() {
    let initializer = addr(1);
    let registrant = addr(2);
    let mut records = initialized_records(&initializer, REGISTRATION_FEE);
    run(
        &registrant,
        NOW,
        NameRegistryInstruction::RegisterName { name: "test-name".to_string() },
        &mut records,
    )
    .unwrap();

    // The zero sentinel is not a valid new address.
    let err = run(
        &registrant,
        NOW,
        NameRegistryInstruction::RequestAddressUpdate { new_address: Address::zero() },
        &mut records,
    )
    .unwrap_err();
    assert_eq!(err, NameRegistryError::InvalidAddress);

    // Only the name's owner may request.
    let err = run(
        &addr(9),
        NOW,
        NameRegistryInstruction::RequestAddressUpdate { new_address: addr(3) },
        &mut records,
    )
    .unwrap_err();
    assert_eq!(err, NameRegistryError::NotNameOwner);
}

#[test]
fn test_complete_address_update() {
    let initializer = addr(1);
    let registrant = addr(2);
    let target = addr(3);
    let mut records = initialized_records(&initializer, REGISTRATION_FEE);
    run(
        &registrant,
        NOW,
        NameRegistryInstruction::RegisterName { name: "test-name".to_string() },
        &mut records,
    )
    .unwrap();
    run(
        &registrant,
        NOW + COOLDOWN_PERIOD,
        NameRegistryInstruction::RequestAddressUpdate { new_address: target.clone() },
        &mut records,
    )
    .unwrap();

    // Only the designated target may complete.
    let err = run(
        &addr(9),
        NOW + COOLDOWN_PERIOD + 5,
        NameRegistryInstruction::CompleteAddressUpdate,
        &mut records,
    )
    .unwrap_err();
    assert_eq!(err, NameRegistryError::NotPendingAddress);

    let completed_at = NOW + COOLDOWN_PERIOD + 5;
    run(&target, completed_at, NameRegistryInstruction::CompleteAddressUpdate, &mut records)
        .unwrap();
    assert_eq!(records.name_record.owner, target);
    assert_eq!(records.name_record.address, target);
    assert_eq!(records.name_record.cooldown_until, completed_at + COOLDOWN_PERIOD);
    assert!(!records.pending_record.is_initialized);
    assert_eq!(records.pending_record.new_address, Address::zero());
}

#[test]
fn test_complete_without_request() {
    let initializer = addr(1);
    let registrant = addr(2);
    let mut records = initialized_records(&initializer, REGISTRATION_FEE);
    run(
        &registrant,
        NOW,
        NameRegistryInstruction::RegisterName { name: "test-name".to_string() },
        &mut records,
    )
    .unwrap();
    let err = run(
        &registrant,
        NOW,
        NameRegistryInstruction::CompleteAddressUpdate,
        &mut records,
    )
    .unwrap_err();
    assert_eq!(err, NameRegistryError::NoPendingUpdate);
}

#[test]
fn test_cooldown_boundary() {
    let initializer = addr(1);
    let registrant = addr(2);
    let target = addr(3);
    let mut records = initialized_records(&initializer, REGISTRATION_FEE);
    run(
        &registrant,
        NOW,
        NameRegistryInstruction::RegisterName { name: "test-name".to_string() },
        &mut records,
    )
    .unwrap();

    // Registration stamps the record one full day ahead.
    assert_eq!(records.name_record.cooldown_until, NOW + COOLDOWN_PERIOD);

    // One second before the stamp: blocked.
    let err = run(
        &registrant,
        NOW + COOLDOWN_PERIOD - 1,
        NameRegistryInstruction::RequestAddressUpdate { new_address: target.clone() },
        &mut records,
    )
    .unwrap_err();
    assert_eq!(err, NameRegistryError::CooldownNotOver);

    // Exactly at the stamp: allowed.
    run(
        &registrant,
        NOW + COOLDOWN_PERIOD,
        NameRegistryInstruction::RequestAddressUpdate { new_address: target.clone() },
        &mut records,
    )
    .unwrap();
    assert!(records.pending_record.is_initialized);

    // The rename gate behaves the same way.
    let err = run(
        &registrant,
        NOW + COOLDOWN_PERIOD - 1,
        NameRegistryInstruction::RenameName { new_name: "other-name".to_string() },
        &mut records,
    )
    .unwrap_err();
    assert_eq!(err, NameRegistryError::CooldownNotOver);
}

#[test]
fn test_rename_name() {
    let initializer = addr(1);
    let registrant = addr(2);
    let mut records = initialized_records(&initializer, REGISTRATION_FEE);
    run(
        &registrant,
        NOW,
        NameRegistryInstruction::RegisterName { name: "test-name".to_string() },
        &mut records,
    )
    .unwrap();
    let renamed_at = NOW + COOLDOWN_PERIOD + 7;
    run(
        &registrant,
        renamed_at,
        NameRegistryInstruction::RenameName { new_name: "new-test-name".to_string() },
        &mut records,
    )
    .unwrap();
    // Old record fully cleared.
    assert_eq!(records.name_record, NameAccount::default());
    // New record took over owner and resolved address.
    assert!(records.new_name_record.is_initialized);
    assert_eq!(records.new_name_record.owner, registrant);
    assert_eq!(records.new_name_record.name, "new-test-name");
    assert_eq!(records.new_name_record.address, registrant);
    assert_eq!(records.new_name_record.cooldown_until, renamed_at + COOLDOWN_PERIOD);
    // Reverse record follows.
    assert!(records.address_record.is_initialized);
    assert_eq!(records.address_record.name, "new-test-name");
}

#[test]
fn test_rename_atomic_three_records() {
    let initializer = addr(1);
    let owner = addr(2);
    let mut records = initialized_records(&initializer, REGISTRATION_FEE);
    run(
        &owner,
        NOW,
        NameRegistryInstruction::RegisterName { name: "alice".to_string() },
        &mut records,
    )
    .unwrap();
    run(
        &owner,
        NOW + COOLDOWN_PERIOD,
        NameRegistryInstruction::RenameName { new_name: "alice2".to_string() },
        &mut records,
    )
    .unwrap();

    // Resolving "alice" (the old record) now fails NameNotFound.
    let mut old_view = records.clone();
    let err = run(&owner, NOW, NameRegistryInstruction::ResolveAddress, &mut old_view)
        .unwrap_err();
    assert_eq!(err, NameRegistryError::NameNotFound);

    // Resolving "alice2" (the new record) returns the original address.
    let mut new_view = records.clone();
    new_view.name_record = records.new_name_record.clone();
    let ret = run(&owner, NOW, NameRegistryInstruction::ResolveAddress, &mut new_view)
        .unwrap()
        .unwrap();
    assert_eq!(ret, owner.bytes);

    // The reverse record for the owner's address reflects "alice2".
    assert_eq!(records.address_record.name, "alice2");
}

#[test]
fn test_set_registration_fee() {
    let initializer = addr(1);
    let mut records = initialized_records(&initializer, REGISTRATION_FEE);
    run(
        &initializer,
        NOW,
        NameRegistryInstruction::SetRegistrationFee { new_fee: 2_000_000 },
        &mut records,
    )
    .unwrap();
    assert_eq!(records.config.registration_fee, 2_000_000);
}

#[test]
fn test_change_program_owner() {
    let initializer = addr(1);
    let new_owner = addr(5);
    let mut records = initialized_records(&initializer, REGISTRATION_FEE);
    run(
        &initializer,
        NOW,
        NameRegistryInstruction::ChangeProgramOwner { new_owner: new_owner.clone() },
        &mut records,
    )
    .unwrap();
    assert_eq!(records.config.pending_owner, new_owner);

    // A signer other than the proposed successor cannot accept.
    let err = run(
        &addr(9),
        NOW,
        NameRegistryInstruction::AcceptProgramOwnership,
        &mut records,
    )
    .unwrap_err();
    assert_eq!(err, NameRegistryError::NotPendingContractOwner);

    run(&new_owner, NOW, NameRegistryInstruction::AcceptProgramOwnership, &mut records).unwrap();
    assert_eq!(records.config.owner, new_owner);
    assert_eq!(records.config.pending_owner, Address::zero());
}

#[test]
fn test_resolve_address() {
    let initializer = addr(1);
    let registrant = addr(2);
    let mut records = initialized_records(&initializer, REGISTRATION_FEE);
    run(
        &registrant,
        NOW,
        NameRegistryInstruction::RegisterName { name: "test-name".to_string() },
        &mut records,
    )
    .unwrap();
    let ret = run(&registrant, NOW, NameRegistryInstruction::ResolveAddress, &mut records)
        .unwrap()
        .unwrap();
    assert_eq!(ret, registrant.bytes);
}

#[test]
fn test_read_only_operations() {
    let initializer = addr(1);
    let new_owner = addr(5);
    let mut records = initialized_records(&initializer, REGISTRATION_FEE);
    run(
        &initializer,
        NOW,
        NameRegistryInstruction::ChangeProgramOwner { new_owner: new_owner.clone() },
        &mut records,
    )
    .unwrap();

    let ret = run(&addr(9), NOW, NameRegistryInstruction::GetContractOwner, &mut records)
        .unwrap()
        .unwrap();
    assert_eq!(ret, initializer.bytes);

    let ret = run(&addr(9), NOW, NameRegistryInstruction::GetPendingContractOwner, &mut records)
        .unwrap()
        .unwrap();
    assert_eq!(ret, new_owner.bytes);

    // The fee is emitted as exactly its eight little-endian bytes.
    let ret = run(&addr(9), NOW, NameRegistryInstruction::GetRegistrationFee, &mut records)
        .unwrap()
        .unwrap();
    assert_eq!(ret, REGISTRATION_FEE.to_le_bytes().to_vec());
}

#[test]
fn test_withdraw() {
    let initializer = addr(1);
    let registrant = addr(2);
    let mut records = initialized_records(&initializer, REGISTRATION_FEE);
    run(
        &registrant,
        NOW,
        NameRegistryInstruction::RegisterName { name: "test-name".to_string() },
        &mut records,
    )
    .unwrap();
    assert_eq!(records.config_balance, REGISTRATION_FEE);

    // The administrator withdraws; their balance grows by exactly the fee
    // and the vault is left at zero.
    records.caller_balance = 500;
    run(&initializer, NOW, NameRegistryInstruction::Withdraw, &mut records).unwrap();
    assert_eq!(records.caller_balance, 500 + REGISTRATION_FEE);
    assert_eq!(records.config_balance, 0);

    // A second withdrawal finds nothing.
    let err = run(&initializer, NOW, NameRegistryInstruction::Withdraw, &mut records)
        .unwrap_err();
    assert_eq!(err, NameRegistryError::NothingToWithdraw);
}

#[test]
fn test_failed_operation_mutates_nothing() {
    let initializer = addr(1);
    let registrant = addr(2);
    let mut records = initialized_records(&initializer, REGISTRATION_FEE);
    run(
        &registrant,
        NOW,
        NameRegistryInstruction::RegisterName { name: "test-name".to_string() },
        &mut records,
    )
    .unwrap();

    // A second registration of the taken name fails and leaves every record
    // and balance exactly as it was.
    let before = records.clone();
    let err = run(
        &addr(7),
        NOW,
        NameRegistryInstruction::RegisterName { name: "test-name".to_string() },
        &mut records,
    )
    .unwrap_err();
    assert_eq!(err, NameRegistryError::NameTaken);
    assert_eq!(records, before);

    // The same holds for an unauthorized withdrawal.
    let err = run(&addr(7), NOW, NameRegistryInstruction::Withdraw, &mut records).unwrap_err();
    assert_eq!(err, NameRegistryError::NotContractOwner);
    assert_eq!(records, before);
}

#[test]
fn test_error_cases() {
    let initializer = addr(1);
    let mut records = initialized_records(&initializer, HIGH_FEE);

    // Registering with a balance under the fee fails.
    records.caller_balance = HIGH_FEE - 1;
    let err = run(
        &initializer,
        NOW,
        NameRegistryInstruction::RegisterName { name: "test-name".to_string() },
        &mut records,
    )
    .unwrap_err();
    assert_eq!(err, NameRegistryError::InsufficientFee);
    records.caller_balance = 1_000_000_000;

    // A malformed name fails.
    let err = run(
        &initializer,
        NOW,
        NameRegistryInstruction::RegisterName { name: "bad name!".to_string() },
        &mut records,
    )
    .unwrap_err();
    assert_eq!(err, NameRegistryError::InvalidNameFormat);

    // Only the administrator may propose a successor.
    let unauthorized = addr(9);
    let err = run(
        &unauthorized,
        NOW,
        NameRegistryInstruction::ChangeProgramOwner { new_owner: unauthorized.clone() },
        &mut records,
    )
    .unwrap_err();
    assert_eq!(err, NameRegistryError::NotContractOwner);

    // Resolving a name that was never registered fails.
    let err = run(&initializer, NOW, NameRegistryInstruction::ResolveAddress, &mut records)
        .unwrap_err();
    assert_eq!(err, NameRegistryError::NameNotFound);

    // Withdrawing from an empty vault fails.
    let err = run(&initializer, NOW, NameRegistryInstruction::Withdraw, &mut records)
        .unwrap_err();
    assert_eq!(err, NameRegistryError::NothingToWithdraw);

    // The zero sentinel cannot become the administrator.
    let err = run(
        &initializer,
        NOW,
        NameRegistryInstruction::ChangeProgramOwner { new_owner: Address::zero() },
        &mut records,
    )
    .unwrap_err();
    assert_eq!(err, NameRegistryError::InvalidAddress);

    // Operations on an uninitialized config are refused.
    let mut empty = fresh_records();
    let err = run(
        &initializer,
        NOW,
        NameRegistryInstruction::RegisterName { name: "test-name".to_string() },
        &mut empty,
    )
    .unwrap_err();
    assert_eq!(err, NameRegistryError::NotInitialized);
}

#[test]
fn test_overflow_is_checked() {
    let initializer = addr(1);
    let registrant = addr(2);

    // Crediting the vault past the maximum is refused, not wrapped.
    let mut records = initialized_records(&initializer, REGISTRATION_FEE);
    records.config_balance = u64::MAX - REGISTRATION_FEE + 1;
    let err = run(
        &registrant,
        NOW,
        NameRegistryInstruction::RegisterName { name: "test-name".to_string() },
        &mut records,
    )
    .unwrap_err();
    assert_eq!(err, NameRegistryError::ArithmeticOverflow);

    // Crediting the administrator past the maximum is refused as well.
    let mut records = initialized_records(&initializer, REGISTRATION_FEE);
    records.config_balance = 10;
    records.caller_balance = u64::MAX - 9;
    let err = run(&initializer, NOW, NameRegistryInstruction::Withdraw, &mut records)
        .unwrap_err();
    assert_eq!(err, NameRegistryError::ArithmeticOverflow);
}
