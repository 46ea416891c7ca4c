use property_tokenization::access::authorize;
use property_tokenization::account::AccountId;
use property_tokenization::contract::PropertyTokenization;
use property_tokenization::property::{Error, Metadata, PropertyDetails, NEW_PROPERTY_ID};
use property_tokenization::registry::{OwnerEntry, Registry};

fn acct(tag: u8) -> AccountId {
    AccountId::new([tag; 32])
}

fn meta(address: &str, description: &str) -> Metadata {
    Metadata {
        address: address.to_string(),
        area_offered: 40,
        total_area: 100,
        description: description.to_string(),
    }
}

fn record(property_id: u32, is_verified: bool) -> PropertyDetails {
    PropertyDetails {
        property_id,
        total_tokens: 1000,
        metadata: meta("12 Main Street", "family house"),
        total_offered_ownership_percentage: 40,
        is_verified,
    }
}

fn seeded(
    admin: AccountId,
    owner: AccountId,
    records: Vec<PropertyDetails>,
) -> PropertyTokenization {
    PropertyTokenization {
        admin,
        property: Registry {
            entries: vec![OwnerEntry { owner, records }],
        },
    }
}

#[test]
fn default_works() {
    let admin = acct(32);
    let contract = PropertyTokenization::init(admin);
    assert!(contract.get_admin() == admin);
    assert!(contract.property.lookup(&admin).is_none());
}

#[test]
fn unauthorized_caller_cannot_verify() {
    let admin = acct(1);
    let owner = acct(2);
    let outsider = acct(3);
    let mut contract = seeded(admin, owner, vec![record(7, false)]);
    let result = contract.verify_property(outsider, owner, 7);
    assert_eq!(result, Err(Error::Unauthorized));
    assert_eq!(contract.property.lookup(&owner).unwrap(), &vec![record(7, false)]);
}

#[test]
fn unauthorized_check_comes_before_owner_lookup() {
    let admin = acct(1);
    let outsider = acct(3);
    let missing_owner = acct(4);
    let mut contract = PropertyTokenization::init(admin);
    let result = contract.verify_property(outsider, missing_owner, 7);
    assert_eq!(result, Err(Error::Unauthorized));
}

#[test]
fn add_property_to_fresh_registry_fails() {
    let admin = acct(1);
    let mut contract = PropertyTokenization::init(admin);
    let result = contract.add_new_property(admin, 500, meta("3 Side Road", "plot"), 25);
    assert_eq!(result, Err(Error::NoSuchOwner));
    assert!(contract.property.lookup(&admin).is_none());
}

#[test]
fn added_record_round_trips() {
    let admin = acct(1);
    let owner = acct(2);
    let mut contract = seeded(admin, owner, vec![record(9, false)]);
    let result = contract.add_new_property(owner, 777, meta("8 Hill Lane", "barn"), 55);
    assert_eq!(result, Ok(()));
    let records = contract.property.lookup(&owner).unwrap();
    assert_eq!(records.len(), 2);
    let added = &records[1];
    assert_eq!(added.property_id, NEW_PROPERTY_ID);
    assert_eq!(added.total_tokens, 777);
    assert_eq!(added.metadata, meta("8 Hill Lane", "barn"));
    assert_eq!(added.total_offered_ownership_percentage, 55);
    assert!(!added.is_verified);
}

#[test]
fn verify_twice_is_idempotent() {
    let admin = acct(1);
    let owner = acct(2);
    let mut contract = seeded(admin, owner, vec![record(7, false), record(9, false)]);
    let first = contract.verify_property(admin, owner, 7);
    assert_eq!(first, Ok(()));
    let after_first = contract.property.lookup(&owner).unwrap().clone();
    let second = contract.verify_property(admin, owner, 7);
    assert_eq!(second, Ok(()));
    let after_second = contract.property.lookup(&owner).unwrap();
    assert_eq!(after_second, &after_first);
    let verified_count = after_second.iter().filter(|r| r.is_verified).count();
    assert_eq!(verified_count, 1);
    assert!(after_second[0].is_verified);
    assert!(!after_second[1].is_verified);
}

#[test]
fn percentage_zero_is_accepted() {
    let admin = acct(1);
    let owner = acct(2);
    let mut contract = seeded(admin, owner, vec![record(9, false)]);
    let result = contract.add_new_property(owner, 10, meta("1 Low Way", "shed"), 0);
    assert_eq!(result, Ok(()));
    let records = contract.property.lookup(&owner).unwrap();
    assert_eq!(records[1].total_offered_ownership_percentage, 0);
}

#[test]
fn percentage_hundred_is_accepted() {
    let admin = acct(1);
    let owner = acct(2);
    let mut contract = seeded(admin, owner, vec![record(9, false)]);
    let result = contract.add_new_property(owner, 10, meta("1 Low Way", "shed"), 100);
    assert_eq!(result, Ok(()));
    let records = contract.property.lookup(&owner).unwrap();
    assert_eq!(records[1].total_offered_ownership_percentage, 100);
}

#[test]
fn percentage_above_hundred_is_accepted() {
    let admin = acct(1);
    let owner = acct(2);
    let mut contract = seeded(admin, owner, vec![record(9, false)]);
    let result = contract.add_new_property(owner, 10, meta("1 Low Way", "shed"), 255);
    assert_eq!(result, Ok(()));
    let records = contract.property.lookup(&owner).unwrap();
    assert_eq!(records[1].total_offered_ownership_percentage, 255);
}

#[test]
fn verify_flips_only_the_matching_record() {
    let admin = acct(1);
    let owner = acct(2);
    let mut contract = seeded(admin, owner, vec![record(7, false), record(9, false)]);
    let result = contract.verify_property(admin, owner, 7);
    assert_eq!(result, Ok(()));
    let records = contract.property.lookup(&owner).unwrap();
    assert_eq!(records[0], record(7, true));
    assert_eq!(records[1], record(9, false));
}

#[test]
fn verify_missing_id_is_silent_noop() {
    let admin = acct(1);
    let owner = acct(2);
    let mut contract = seeded(admin, owner, vec![record(7, false), record(9, false)]);
    let result = contract.verify_property(admin, owner, 999);
    assert_eq!(result, Ok(()));
    let records = contract.property.lookup(&owner).unwrap();
    assert_eq!(records, &vec![record(7, false), record(9, false)]);
}

#[test]
fn verify_unknown_owner_fails() {
    let admin = acct(1);
    let owner = acct(2);
    let stranger = acct(5);
    let mut contract = seeded(admin, owner, vec![record(7, false)]);
    let result = contract.verify_property(admin, stranger, 7);
    assert_eq!(result, Err(Error::NoSuchOwner));
}

#[test]
fn verify_marks_every_matching_record() {
    let admin = acct(1);
    let owner = acct(2);
    let mut contract = seeded(admin, owner, vec![record(7, false), record(7, false)]);
    let result = contract.verify_property(admin, owner, 7);
    assert_eq!(result, Ok(()));
    let records = contract.property.lookup(&owner).unwrap();
    assert!(records[0].is_verified);
    assert!(records[1].is_verified);
}

#[test]
fn authorize_accepts_the_admin() {
    let admin = acct(1);
    assert_eq!(authorize(&admin, &admin), Ok(()));
}

#[test]
fn authorize_rejects_any_other_identity() {
    let admin = acct(1);
    let outsider = acct(2);
    assert_eq!(authorize(&outsider, &admin), Err(Error::Unauthorized));
}

#[test]
fn store_append_needs_an_existing_entry() {
    let owner = acct(2);
    let mut store = Registry::new();
    assert_eq!(store.append(&owner, record(7, false)), Err(Error::NoSuchOwner));
    assert!(store.lookup(&owner).is_none());
    let mut seeded_store = Registry {
        entries: vec![OwnerEntry {
            owner,
            records: vec![record(7, false)],
        }],
    };
    assert_eq!(seeded_store.append(&owner, record(9, false)), Ok(()));
    assert_eq!(
        seeded_store.lookup(&owner).unwrap(),
        &vec![record(7, false), record(9, false)]
    );
}

#[test]
fn store_keeps_other_owners_apart() {
    let first = acct(2);
    let second = acct(3);
    let mut store = Registry {
        entries: vec![
            OwnerEntry {
                owner: first,
                records: vec![record(7, false)],
            },
            OwnerEntry {
                owner: second,
                records: vec![record(7, false)],
            },
        ],
    };
    assert_eq!(store.set_verified(&first, 7), Ok(()));
    assert!(store.lookup(&first).unwrap()[0].is_verified);
    assert!(!store.lookup(&second).unwrap()[0].is_verified);
}

#[test]
fn account_equality_goes_by_bytes() {
    assert!(acct(1) == acct(1));
    assert!(acct(1) != acct(2));
    let mut bytes = [9u8; 32];
    bytes[31] = 8;
    assert!(AccountId::new(bytes) != AccountId::new([9u8; 32]));
}
