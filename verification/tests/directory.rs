use mbbs::protobufs::{User, BROADCAST};
use mbbs::storage::Storage;

fn user(long_name: &str) -> User {
    User {
        id: String::new(),
        long_name: long_name.to_string(),
        short_name: String::new(),
        macaddr: Vec::new(),
        hw_model: 0,
        is_licensed: false,
        role: 0,
        public_key: Vec::new(),
        is_unmessagable: None,
    }
}

#[test]
fn unknown_node_is_shown_by_its_number() {
    let storage = Storage::new();
    assert_eq!(storage.long_name_of(7), "7");
    assert_eq!(storage.long_name_of(0), "0");
    assert_eq!(storage.long_name_of(10), "10");
    assert_eq!(storage.long_name_of(4294967294), "4294967294");
    assert!(storage.user(7).is_none());
}

#[test]
fn known_node_is_shown_by_its_long_name() {
    let mut storage = Storage::new();
    storage.upsert(7, user("Alice"));
    assert_eq!(storage.long_name_of(7), "Alice");
    assert_eq!(storage.long_name_of(8), "8");
    assert_eq!(storage.user(7), Some(&user("Alice")));
}

#[test]
fn same_upsert_twice_changes_nothing() {
    let mut storage = Storage::new();
    storage.upsert(7, user("Alice"));
    let once = storage.save();
    storage.upsert(7, user("Alice"));
    assert_eq!(storage.long_name_of(7), "Alice");
    assert_eq!(storage.save(), once);
}

#[test]
fn upsert_replaces_the_whole_record() {
    let mut first = user("Alice");
    first.short_name = "AL".to_string();
    first.is_licensed = true;
    let mut storage = Storage::new();
    storage.upsert(7, first);
    storage.upsert(7, user("Alicia"));
    assert_eq!(storage.long_name_of(7), "Alicia");
    assert_eq!(storage.user(7), Some(&user("Alicia")));
}

#[test]
fn an_empty_long_name_is_still_the_name() {
    let mut storage = Storage::new();
    storage.upsert(7, user(""));
    assert_eq!(storage.long_name_of(7), "");
}

#[test]
fn broadcast_is_shown_as_the_word() {
    let mut storage = Storage::new();
    assert_eq!(storage.display_name(BROADCAST), "BROADCAST");
    assert_eq!(storage.display_name(0xffff_ffff), "BROADCAST");
    storage.upsert(BROADCAST, user("Everyone"));
    assert_eq!(storage.display_name(BROADCAST), "BROADCAST");
    assert_eq!(storage.display_name(7), "7");
    storage.upsert(7, user("Alice"));
    assert_eq!(storage.display_name(7), "Alice");
}

#[test]
fn stat_key_joins_name_and_sort() {
    let mut storage = Storage::new();
    assert_eq!(storage.stat_key(7, "TextMessage"), "7:TextMessage");
    storage.upsert(7, user("Alice"));
    assert_eq!(storage.stat_key(7, "TextMessage"), "Alice:TextMessage");
    assert_eq!(storage.stat_key(BROADCAST, "Unknown"), "BROADCAST:Unknown");
}
