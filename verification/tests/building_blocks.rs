use dpp_contract::record::PassportRecord;
use dpp_contract::rules::{
    approved_or_owner, check_approve, check_content, check_operator, check_revoke, check_transfer,
    check_update, count_after_gain, count_after_loss,
};
use dpp_contract::table::{Key, Table};
use dpp_contract::types::bytes_equal;
use dpp_contract::{
    Address, CallContext, Error, Granularity, PassportRegistered, PassportStatus, PassportUpdated,
    VersionHistory,
};

fn a() -> Address {
    Address([1u8; 20])
}

fn b() -> Address {
    Address([2u8; 20])
}

fn c() -> Address {
    Address([3u8; 20])
}

fn record(status: PassportStatus) -> PassportRecord {
    let mut record = PassportRecord::create(
        4,
        CallContext { caller: a(), block_number: 10 },
        String::from("ipfs://cid"),
        [8u8; 32],
        String::from("application/vc+jwt"),
        Granularity::Batch,
        None,
    );
    record.status = status;
    record
}

#[test]
fn byte_arrays_compare_by_content() {
    assert!(bytes_equal(&[0u8; 32], &[0u8; 32]));
    assert!(bytes_equal::<0>(&[], &[]));
    let mut last = [7u8; 32];
    last[31] = 8;
    assert!(!bytes_equal(&[7u8; 32], &last));
    let mut first = [7u8; 20];
    first[0] = 0;
    assert!(!bytes_equal(&[7u8; 20], &first));
}

#[test]
fn addresses_compare_by_their_bytes() {
    let mut bytes = [5u8; 20];
    assert!(Address(bytes) == Address([5u8; 20]));
    bytes[19] = 6;
    assert!(Address(bytes) != Address([5u8; 20]));
    assert!((a(), b()).same(&(a(), b())));
    assert!(!(a(), b()).same(&(b(), a())));
    assert!(!(a(), b()).same(&(a(), c())));
    assert!((3u128, 4u32).same(&(3, 4)));
    assert!(!(3u128, 4u32).same(&(3, 5)));
}

#[test]
fn table_keeps_one_value_per_key() {
    let mut table: Table<u128, u32> = Table::new();
    assert!(!table.contains(&1));
    assert_eq!(table.get(&1), None);

    table.insert(1, 10);
    table.insert(2, 20);
    table.insert(3, 30);
    table.insert(2, 21);
    assert_eq!(table.get(&1), Some(&10));
    assert_eq!(table.get(&2), Some(&21));
    assert_eq!(table.get(&3), Some(&30));
    assert!(table.contains(&2));
    assert!(!table.contains(&4));

    table.remove(&1);
    assert_eq!(table.get(&1), None);
    assert_eq!(table.get(&2), Some(&21));
    assert_eq!(table.get(&3), Some(&30));
    table.remove(&1);
    table.remove(&9);
    table.remove(&3);
    assert_eq!(table.get(&2), Some(&21));
    assert!(!table.contains(&3));
    table.insert(1, 11);
    assert_eq!(table.get(&1), Some(&11));
}

#[test]
fn table_takes_composite_keys() {
    let mut flags: Table<(Address, Address), ()> = Table::new();
    flags.insert((a(), b()), ());
    assert!(flags.contains(&(a(), b())));
    assert!(!flags.contains(&(b(), a())));
    flags.remove(&(a(), b()));
    assert!(!flags.contains(&(a(), b())));

    let mut hashes: Table<[u8; 32], u128> = Table::new();
    hashes.insert([1u8; 32], 5);
    hashes.insert([2u8; 32], 6);
    hashes.insert([1u8; 32], 7);
    assert_eq!(hashes.get(&[1u8; 32]), Some(&7));
    assert_eq!(hashes.get(&[2u8; 32]), Some(&6));
    assert_eq!(hashes.get(&[3u8; 32]), None);
}

#[test]
fn content_needs_both_strings() {
    assert_eq!(check_content("ipfs://cid", "application/vc+jwt"), Ok(()));
    assert_eq!(check_content("x", "y"), Ok(()));
    assert_eq!(check_content("", "application/vc+jwt"), Err(Error::InvalidInput));
    assert_eq!(check_content("ipfs://cid", ""), Err(Error::InvalidInput));
    assert_eq!(check_content("", ""), Err(Error::InvalidInput));
    // Only emptiness is checked: blanks are content like any other.
    assert_eq!(check_content(" ", " "), Ok(()));
}

#[test]
fn update_rule_gives_each_error_in_turn() {
    let active = record(PassportStatus::Active);
    let revoked = record(PassportStatus::Revoked);
    assert_eq!(check_update(None, a(), "", ""), Err(Error::TokenNotFound));
    assert_eq!(check_update(Some(&revoked), b(), "", ""), Err(Error::Unauthorized));
    assert_eq!(check_update(Some(&revoked), a(), "", ""), Err(Error::PassportRevoked));
    assert_eq!(check_update(Some(&active), a(), "", "t"), Err(Error::InvalidInput));
    assert_eq!(check_update(Some(&active), a(), "u", ""), Err(Error::InvalidInput));
    assert_eq!(check_update(Some(&active), a(), "u", "t"), Ok(()));
}

#[test]
fn update_rule_stops_only_at_revoked() {
    for status in [PassportStatus::Draft, PassportStatus::Suspended, PassportStatus::Archived] {
        assert_eq!(check_update(Some(&record(status)), a(), "u", "t"), Ok(()));
        assert_eq!(check_revoke(Some(&record(status)), a()), Ok(()));
    }
}

#[test]
fn revoke_rule_gives_each_error_in_turn() {
    let active = record(PassportStatus::Active);
    let revoked = record(PassportStatus::Revoked);
    assert_eq!(check_revoke(None, a()), Err(Error::TokenNotFound));
    assert_eq!(check_revoke(Some(&revoked), b()), Err(Error::Unauthorized));
    assert_eq!(check_revoke(Some(&revoked), a()), Err(Error::AlreadyRevoked));
    assert_eq!(check_revoke(Some(&active), a()), Ok(()));
}

#[test]
fn approve_rule_gives_each_error_in_turn() {
    assert_eq!(check_approve(None, a(), b(), true), Err(Error::TokenNotFound));
    assert_eq!(check_approve(Some(a()), b(), a(), true), Err(Error::NotAllowed));
    assert_eq!(check_approve(Some(a()), b(), c(), false), Err(Error::NotApproved));
    assert_eq!(check_approve(Some(a()), b(), c(), true), Ok(()));
    assert_eq!(check_approve(Some(a()), a(), c(), false), Ok(()));
    // An operator may approve itself; only the holder cannot be the target.
    assert_eq!(check_approve(Some(a()), b(), b(), true), Ok(()));
}

#[test]
fn operator_rule_refuses_oneself() {
    assert_eq!(check_operator(a(), a()), Err(Error::NotAllowed));
    assert_eq!(check_operator(a(), b()), Ok(()));
}

#[test]
fn three_ways_to_be_allowed() {
    assert!(approved_or_owner(a(), a(), None, false));
    assert!(approved_or_owner(b(), a(), Some(b()), false));
    assert!(approved_or_owner(b(), a(), None, true));
    assert!(!approved_or_owner(b(), a(), None, false));
    assert!(!approved_or_owner(b(), a(), Some(c()), false));
    assert!(!approved_or_owner(b(), a(), Some(a()), false));
}

#[test]
fn transfer_rule_gives_each_error_in_turn() {
    let active = record(PassportStatus::Active);
    let revoked = record(PassportStatus::Revoked);
    assert_eq!(check_transfer(None, Some(a()), a(), a(), None, false), Err(Error::TokenNotFound));
    assert_eq!(
        check_transfer(Some(&revoked), None, b(), c(), None, false),
        Err(Error::PassportRevoked)
    );
    assert_eq!(
        check_transfer(Some(&active), None, a(), a(), None, false),
        Err(Error::TokenNotFound)
    );
    assert_eq!(
        check_transfer(Some(&active), Some(a()), b(), a(), None, true),
        Err(Error::NotOwner)
    );
    assert_eq!(
        check_transfer(Some(&active), Some(a()), a(), b(), Some(c()), false),
        Err(Error::NotApproved)
    );
    assert_eq!(check_transfer(Some(&active), Some(a()), a(), a(), None, false), Ok(()));
    assert_eq!(check_transfer(Some(&active), Some(a()), a(), b(), Some(b()), false), Ok(()));
    assert_eq!(check_transfer(Some(&active), Some(a()), a(), b(), None, true), Ok(()));
}

#[test]
fn counts_stay_in_their_range() {
    assert_eq!(count_after_gain(0), Ok(1));
    assert_eq!(count_after_gain(41), Ok(42));
    assert_eq!(count_after_gain(u128::MAX - 1), Ok(u128::MAX));
    assert_eq!(count_after_gain(u128::MAX), Err(Error::InvalidInput));
    assert_eq!(count_after_loss(u128::MAX), Ok(u128::MAX - 1));
    assert_eq!(count_after_loss(42), Ok(41));
    assert_eq!(count_after_loss(1), Ok(0));
    assert_eq!(count_after_loss(0), Err(Error::InvalidInput));
}

#[test]
fn record_goes_through_its_life() {
    let ctx = CallContext { caller: a(), block_number: 10 };
    let mut record = PassportRecord::create(
        4,
        ctx,
        String::from("ipfs://cid"),
        [8u8; 32],
        String::from("application/vc+jwt"),
        Granularity::ProductClass,
        Some([1u8; 32]),
    );
    assert_eq!(
        record,
        PassportRecord {
            token_id: 4,
            issuer: a(),
            dataset_uri: String::from("ipfs://cid"),
            payload_hash: [8u8; 32],
            dataset_type: String::from("application/vc+jwt"),
            version: 1,
            status: PassportStatus::Active,
            created_at: 10,
            updated_at: 10,
            granularity: Granularity::ProductClass,
            subject_id_hash: Some([1u8; 32]),
        }
    );
    assert_eq!(
        record.registered_notice(),
        PassportRegistered {
            token_id: 4,
            issuer: a(),
            dataset_uri: String::from("ipfs://cid"),
            payload_hash: [8u8; 32],
            dataset_type: String::from("application/vc+jwt"),
            version: 1,
            created_at: 10,
        }
    );
    assert_eq!(record.clone(), record);

    record.update(
        CallContext { caller: b(), block_number: 12 },
        String::from("ipfs://new"),
        [9u8; 32],
        String::from("text/plain"),
        None,
    );
    assert_eq!(
        record,
        PassportRecord {
            token_id: 4,
            issuer: a(),
            dataset_uri: String::from("ipfs://new"),
            payload_hash: [9u8; 32],
            dataset_type: String::from("text/plain"),
            version: 2,
            status: PassportStatus::Active,
            created_at: 10,
            updated_at: 12,
            granularity: Granularity::ProductClass,
            subject_id_hash: None,
        }
    );
    assert_eq!(
        record.updated_notice(),
        PassportUpdated {
            token_id: 4,
            dataset_uri: String::from("ipfs://new"),
            payload_hash: [9u8; 32],
            dataset_type: String::from("text/plain"),
            version: 2,
            updated_at: 12,
        }
    );
    let entry = record.ledger_entry(b());
    assert_eq!(
        entry,
        VersionHistory {
            version: 2,
            dataset_uri: String::from("ipfs://new"),
            payload_hash: [9u8; 32],
            dataset_type: String::from("text/plain"),
            updated_at: 12,
            updated_by: b(),
        }
    );
    assert_eq!(entry.clone(), entry);

    record.revoke(CallContext { caller: a(), block_number: 15 });
    assert_eq!(record.status, PassportStatus::Revoked);
    assert_eq!(record.updated_at, 15);
    assert_eq!(record.version, 2);
    assert_eq!(record.created_at, 10);
    assert_eq!(record.dataset_uri, "ipfs://new");
}
