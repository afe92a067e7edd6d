//! The record store: fixed layouts, exact encodings, round trips, and the
//! malformed-buffer failures that must never read as a semantic state.

use instant_folio::error::RecordError;
use instant_folio::state::{
    Address, AddressAccount, NameAccount, PendingUpdateAccount, ProgramConfig,
    ADDRESS_ACCOUNT_LEN, NAME_ACCOUNT_LEN, PENDING_UPDATE_ACCOUNT_LEN, PROGRAM_CONFIG_LEN,
};

fn addr(fill: u8) -> Address {
    Address { bytes: vec![fill; 32] }
}

#[test]
fn name_account_exact_encoding() {
    let rec = NameAccount {
        is_initialized: true,
        owner: addr(7),
        name: "ab".to_string(),
        address: addr(9),
        cooldown_until: 258,
    };
    let mut buf = vec![0u8; NAME_ACCOUNT_LEN];
    rec.pack_into_slice(&mut buf).unwrap();

    let mut expected = Vec::new();
    expected.push(1u8);
    expected.extend_from_slice(&[7u8; 32]);
    expected.extend_from_slice(&2u32.to_le_bytes());
    expected.extend_from_slice(b"ab");
    expected.extend_from_slice(&[9u8; 32]);
    expected.extend_from_slice(&258u64.to_le_bytes());
    expected.extend_from_slice(&[0u8; 30]);
    assert_eq!(buf, expected);
}

#[test]
fn name_account_roundtrip() {
    let rec = NameAccount {
        is_initialized: true,
        owner: addr(3),
        name: "some-name-0123456789-0123456789a".to_string(),
        address: addr(4),
        cooldown_until: -5,
    };
    assert_eq!(rec.name.len(), 32);
    let mut buf = vec![0u8; NAME_ACCOUNT_LEN];
    rec.pack_into_slice(&mut buf).unwrap();
    let back = NameAccount::unpack_from_slice(&buf).unwrap();
    assert_eq!(back, rec);
}

#[test]
fn name_account_zero_buffer_reads_default() {
    let buf = vec![0u8; NAME_ACCOUNT_LEN];
    let rec = NameAccount::unpack_from_slice(&buf).unwrap();
    assert_eq!(rec, NameAccount::default());
    assert!(!rec.is_initialized);
}

#[test]
fn name_account_malformed_buffers() {
    // Wrong size.
    let buf = vec![0u8; NAME_ACCOUNT_LEN - 1];
    assert_eq!(
        NameAccount::unpack_from_slice(&buf).unwrap_err(),
        RecordError::MalformedRecord
    );

    // A flag byte that is neither 0 nor 1.
    let mut buf = vec![0u8; NAME_ACCOUNT_LEN];
    buf[0] = 2;
    assert_eq!(
        NameAccount::unpack_from_slice(&buf).unwrap_err(),
        RecordError::MalformedRecord
    );

    // A name length over the 32-byte window.
    let mut buf = vec![0u8; NAME_ACCOUNT_LEN];
    buf[33..37].copy_from_slice(&33u32.to_le_bytes());
    assert_eq!(
        NameAccount::unpack_from_slice(&buf).unwrap_err(),
        RecordError::MalformedRecord
    );

    // A non-ASCII name byte.
    let mut buf = vec![0u8; NAME_ACCOUNT_LEN];
    buf[33..37].copy_from_slice(&1u32.to_le_bytes());
    buf[37] = 0xC3;
    assert_eq!(
        NameAccount::unpack_from_slice(&buf).unwrap_err(),
        RecordError::MalformedRecord
    );

    // Packing into a wrongly sized buffer changes nothing.
    let rec = NameAccount::default();
    let mut short = vec![5u8; 10];
    assert_eq!(
        rec.pack_into_slice(&mut short).unwrap_err(),
        RecordError::MalformedRecord
    );
    assert_eq!(short, vec![5u8; 10]);

    // A record that does not fit the layout is refused.
    let long_name = NameAccount {
        is_initialized: true,
        owner: addr(1),
        name: "x".repeat(33),
        address: addr(2),
        cooldown_until: 0,
    };
    let mut buf = vec![0u8; NAME_ACCOUNT_LEN];
    assert_eq!(
        long_name.pack_into_slice(&mut buf).unwrap_err(),
        RecordError::MalformedRecord
    );
}

#[test]
fn address_account_roundtrip_and_encoding() {
    let rec = AddressAccount { is_initialized: true, name: "alice".to_string() };
    let mut buf = vec![0u8; ADDRESS_ACCOUNT_LEN];
    rec.pack_into_slice(&mut buf).unwrap();

    let mut expected = Vec::new();
    expected.push(1u8);
    expected.extend_from_slice(&5u32.to_le_bytes());
    expected.extend_from_slice(b"alice");
    expected.extend_from_slice(&[0u8; 27]);
    assert_eq!(buf, expected);

    let back = AddressAccount::unpack_from_slice(&buf).unwrap();
    assert_eq!(back, rec);

    let empty = AddressAccount::unpack_from_slice(&vec![0u8; ADDRESS_ACCOUNT_LEN]).unwrap();
    assert_eq!(empty, AddressAccount::default());
}

#[test]
fn pending_update_account_roundtrip_and_encoding() {
    let rec = PendingUpdateAccount { is_initialized: true, new_address: addr(11) };
    let mut buf = vec![0u8; PENDING_UPDATE_ACCOUNT_LEN];
    rec.pack_into_slice(&mut buf).unwrap();

    let mut expected = vec![1u8];
    expected.extend_from_slice(&[11u8; 32]);
    assert_eq!(buf, expected);

    let back = PendingUpdateAccount::unpack_from_slice(&buf).unwrap();
    assert_eq!(back, rec);

    let empty =
        PendingUpdateAccount::unpack_from_slice(&vec![0u8; PENDING_UPDATE_ACCOUNT_LEN]).unwrap();
    assert_eq!(empty, PendingUpdateAccount::default());
}

#[test]
fn program_config_roundtrip_and_encoding() {
    let rec = ProgramConfig {
        is_initialized: true,
        owner: addr(1),
        pending_owner: addr(2),
        registration_fee: 1_000_000,
    };
    let mut buf = vec![0u8; PROGRAM_CONFIG_LEN];
    rec.pack_into_slice(&mut buf).unwrap();

    let mut expected = vec![1u8];
    expected.extend_from_slice(&[1u8; 32]);
    expected.extend_from_slice(&[2u8; 32]);
    expected.extend_from_slice(&1_000_000u64.to_le_bytes());
    assert_eq!(buf, expected);

    let back = ProgramConfig::unpack_from_slice(&buf).unwrap();
    assert_eq!(back, rec);

    let empty = ProgramConfig::unpack_from_slice(&vec![0u8; PROGRAM_CONFIG_LEN]).unwrap();
    assert_eq!(empty, ProgramConfig::default());

    let mut bad = vec![0u8; PROGRAM_CONFIG_LEN];
    bad[0] = 7;
    assert_eq!(
        ProgramConfig::unpack_from_slice(&bad).unwrap_err(),
        RecordError::MalformedRecord
    );
}
