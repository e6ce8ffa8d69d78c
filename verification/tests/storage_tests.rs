//! The store adapter: a get/set/has/remove/extend-lifetime sequence per
//! tier, and the mock storage.

use soroban_kit::encoding::Tagged;
use soroban_kit::fsm::StorageType;
use soroban_kit::mock_storage::{
    MockStorageInstance, MockStoragePersistent, MockStorageTemporary,
};
use soroban_kit::storage::{Store, StoreKey, StoreVal};

const ADMIN_KEY_FAMILY: u32 = 110;
const USER_KEY_FAMILY: u32 = 111;

// Runs the storage test sequence on one tier: reads of an absent entry,
// a write, presence, a lifetime extension, reads of the value, and a
// removal.
fn run_storage_tests(store: &mut Store, tier: StorageType, key: StoreKey, data: StoreVal) {
    // Try to get the data: none was set.
    assert!(store.get(tier, key).is_none());

    // Reading with a fallback instead tolerates the absence.
    let fallback = store.get(tier, key).unwrap_or(data);
    assert_eq!(fallback, data);

    // Set the data.
    store.set(tier, key, data);

    // Verify that the storage now has the data.
    assert_eq!(store.has(tier, key), true);

    // Extend the data's lifetime.
    assert!(store.extend_ttl(tier, key, 1, 1));

    // Get the data.
    assert_eq!(store.get(tier, key), Some(data));

    // Get the data through the fallback path.
    assert_eq!(store.get(tier, key).unwrap_or(data), data);

    // Remove the data.
    store.remove(tier, key);

    // Verify that the data is no more available.
    assert_eq!(store.has(tier, key), false);
}

#[test]
fn test_tools_instance_storage() {
    let mut store = Store::new();
    let admin_address: u64 = 41;
    run_storage_tests(
        &mut store,
        StorageType::Instance,
        StoreKey::Variant(Tagged::plain(ADMIN_KEY_FAMILY, 0)),
        StoreVal::Record(admin_address, 0),
    );
}

#[test]
fn test_tools_persistent_storage() {
    let mut store = Store::new();
    let user_address: u64 = 42;
    run_storage_tests(
        &mut store,
        StorageType::Persistent,
        StoreKey::Variant(Tagged::extended(USER_KEY_FAMILY, 1, user_address)),
        StoreVal::Record(user_address, 0),
    );
}

#[test]
fn test_tools_temporary_storage() {
    let mut store = Store::new();
    run_storage_tests(
        &mut store,
        StorageType::Temporary,
        StoreKey::Variant(Tagged::extended(USER_KEY_FAMILY, 2, u64::MAX)),
        StoreVal::Record(21000000, 1225476633),
    );
}

#[test]
fn test_tools_mock_storage() {
    let key = Tagged::extended(USER_KEY_FAMILY, 2, 7);
    let data: u64 = 21000000;

    let instance = MockStorageInstance::new();

    // The mock finds no data.
    assert!(instance.get::<Tagged, u64>(&key).is_none());

    // Reading with a fallback tolerates the absence.
    assert_eq!(instance.get::<Tagged, u64>(&key).unwrap_or(data), data);

    // Writes are accepted and discarded.
    instance.set(&key, &data);

    // The mock reports every entry as present.
    assert_eq!(instance.has(&key), true);

    instance.extend_ttl(1, 1);
    instance.remove(&key);
}

#[test]
fn test_mock_storage_persistent_and_temporary() {
    let key = Tagged::plain(ADMIN_KEY_FAMILY, 0);
    let data: u64 = 5;

    let persistent = MockStoragePersistent::new();
    assert!(persistent.get::<Tagged, u64>(&key).is_none());
    persistent.set(&key, &data);
    assert!(persistent.has(&key));
    persistent.extend_ttl(&key, 1, 1);
    persistent.remove(&key);

    let temporary = MockStorageTemporary::new();
    assert!(temporary.get::<Tagged, u64>(&key).is_none());
    temporary.set(&key, &data);
    assert!(temporary.has(&key));
    temporary.extend_ttl(&key, 1, 1);
    temporary.remove(&key);
}

#[test]
fn test_tiers_are_independent() {
    // The same key under different tiers names different entries.
    let mut store = Store::new();
    let key = StoreKey::Variant(Tagged::plain(ADMIN_KEY_FAMILY, 3));
    store.set(StorageType::Instance, key, StoreVal::Record(1, 0));
    store.set(StorageType::Persistent, key, StoreVal::Record(2, 0));
    assert_eq!(store.get(StorageType::Instance, key), Some(StoreVal::Record(1, 0)));
    assert_eq!(store.get(StorageType::Persistent, key), Some(StoreVal::Record(2, 0)));
    assert!(store.get(StorageType::Temporary, key).is_none());
    store.remove(StorageType::Instance, key);
    assert!(store.get(StorageType::Instance, key).is_none());
    assert_eq!(store.get(StorageType::Persistent, key), Some(StoreVal::Record(2, 0)));
}

#[test]
fn test_extend_ttl_reports_absence() {
    let store = Store::new();
    let key = StoreKey::Variant(Tagged::plain(ADMIN_KEY_FAMILY, 4));
    assert_eq!(store.extend_ttl(StorageType::Persistent, key, 1, 1), false);
}

#[test]
fn test_set_replaces_the_previous_entry() {
    // For a given key and tier at most one value is persisted at a time.
    let mut store = Store::new();
    let key = StoreKey::Variant(Tagged::plain(ADMIN_KEY_FAMILY, 5));
    store.set(StorageType::Instance, key, StoreVal::Record(1, 1));
    store.set(StorageType::Instance, key, StoreVal::Record(2, 2));
    assert_eq!(store.get(StorageType::Instance, key), Some(StoreVal::Record(2, 2)));
}
