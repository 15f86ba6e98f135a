use deposit_registry::{Entry, Profile, RecordStore, Registry, RegistryConfig};

fn entry(name: &[u8], age: u8, title: &[u8], deposit: u64) -> Entry {
    Entry {
        profile: Profile { name: name.to_vec(), age, title: title.to_vec() },
        deposit,
    }
}

#[test]
fn put_then_get_returns_the_entry() {
    let mut store = RecordStore::new();
    assert!(store.get(1).is_none());
    store.put(1, entry(b"alice", 30, b"eng", 50));
    let found = store.get(1).expect("entry stored");
    assert_eq!(found.profile.name, b"alice".to_vec());
    assert_eq!(found.deposit, 50);
    assert!(store.get(2).is_none());
}

#[test]
fn put_overwrites_wholesale() {
    let mut store = RecordStore::new();
    store.put(1, entry(b"alice", 30, b"eng", 50));
    store.put(1, entry(b"bob", 20, b"ops", 7));
    let found = store.get(1).expect("entry stored");
    assert_eq!(found.profile.name, b"bob".to_vec());
    assert_eq!(found.deposit, 7);
}

#[test]
fn remove_returns_the_entry_and_reports_absence() {
    let mut store = RecordStore::new();
    store.put(1, entry(b"alice", 30, b"eng", 50));
    let removed = store.remove(1).expect("entry removed");
    assert_eq!(removed.profile.name, b"alice".to_vec());
    assert!(store.get(1).is_none());
    assert!(store.remove(1).is_none());
}

#[test]
fn new_registry_is_empty() {
    let registry = Registry::new(RegistryConfig { max_length: 10, deposit_value: 50 });
    assert!(registry.get_entry(1).is_none());
    assert!(registry.events().is_empty());
}
