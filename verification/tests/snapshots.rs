use mbbs::protobufs::User;
use mbbs::snapshot::Snapshot;
use mbbs::stats::StatEntry;
use mbbs::storage::Storage;
use mbbs::text::{decimal_text, parse_decimal};

fn record(long_name: &str, short_name: &str) -> User {
    User {
        id: "!id".to_string(),
        long_name: long_name.to_string(),
        short_name: short_name.to_string(),
        macaddr: vec![1, 2, 3, 4, 5, 6],
        hw_model: 43,
        is_licensed: true,
        role: 1,
        public_key: vec![9; 32],
        is_unmessagable: Some(false),
    }
}

fn sample() -> Storage {
    let mut storage = Storage::new();
    storage.upsert(7, record("Alice", "AL"));
    storage.upsert(4294967295, record("Last", "LA"));
    storage.upsert(0, record("Zero", "ZE"));
    storage.upsert(1234567890, record("Bob", "BO"));
    let packet = |from| mbbs::protobufs::MeshPacket { from, to: 1, payload_variant: None };
    storage.insert_stat(&packet(7), "TextMessage", 1700000000);
    storage.insert_stat(&packet(7), "TextMessage", 1700000010);
    storage.insert_stat(&packet(99), "Unknown", 5);
    storage.insert_stat(&packet(0), "RoutingInfo", u64::MAX);
    storage
}

#[test]
fn an_empty_storage_saves_an_empty_snapshot() {
    let snapshot = Storage::new().save();
    assert_eq!(snapshot, Snapshot { users: Vec::new(), stats: Vec::new() });
}

#[test]
fn save_lists_every_record_and_counter_once() {
    let snapshot = sample().save();
    let mut users = snapshot.users.clone();
    users.sort_by_key(|row| row.0.clone());
    assert_eq!(
        users,
        vec![
            ("0".to_string(), record("Zero", "ZE")),
            ("1234567890".to_string(), record("Bob", "BO")),
            ("4294967295".to_string(), record("Last", "LA")),
            ("7".to_string(), record("Alice", "AL")),
        ]
    );
    assert_eq!(
        snapshot.stats,
        vec![
            ("99:Unknown".to_string(), StatEntry { count: 1, last_seen: 5 }),
            ("Alice:TextMessage".to_string(), StatEntry { count: 2, last_seen: 1700000010 }),
            ("Zero:RoutingInfo".to_string(), StatEntry { count: 1, last_seen: u64::MAX }),
        ]
    );
}

#[test]
fn what_was_saved_is_what_is_loaded() {
    let storage = sample();
    let snapshot = storage.save();
    let loaded = Storage::load(Some(&snapshot));
    for id in [0u32, 7, 1234567890, 4294967295] {
        assert_eq!(loaded.user(id), storage.user(id));
        assert_eq!(loaded.long_name_of(id), storage.long_name_of(id));
    }
    assert!(loaded.user(8).is_none());
    assert_eq!(loaded.save().stats, snapshot.stats);
    let mut again = loaded.save().users;
    let mut first = snapshot.users;
    again.sort_by_key(|row| row.0.clone());
    first.sort_by_key(|row| row.0.clone());
    assert_eq!(again, first);
    assert_eq!(
        loaded.stat("Alice:TextMessage"),
        Some(StatEntry { count: 2, last_seen: 1700000010 })
    );
}

#[test]
fn no_snapshot_loads_the_empty_storage() {
    let storage = Storage::load(None);
    assert_eq!(storage.save(), Snapshot { users: Vec::new(), stats: Vec::new() });
    assert_eq!(storage.long_name_of(7), "7");
}

#[test]
fn a_damaged_snapshot_loads_the_empty_storage() {
    for key in ["", "seven", "07", "+7", " 7", "7 ", "-1", "4294967296", "99999999999", "７"] {
        let snapshot = Snapshot {
            users: vec![
                ("7".to_string(), record("Alice", "AL")),
                (key.to_string(), record("Bad", "BA")),
            ],
            stats: vec![("Alice:TextMessage".to_string(), StatEntry { count: 1, last_seen: 1 })],
        };
        let storage = Storage::load(Some(&snapshot));
        assert_eq!(storage.save(), Snapshot { users: Vec::new(), stats: Vec::new() });
    }
}

#[test]
fn of_two_rows_with_one_key_the_later_counts() {
    let snapshot = Snapshot {
        users: vec![
            ("7".to_string(), record("Alice", "AL")),
            ("8".to_string(), record("Bob", "BO")),
            ("7".to_string(), record("Alicia", "AC")),
        ],
        stats: vec![
            ("k".to_string(), StatEntry { count: 1, last_seen: 1 }),
            ("a".to_string(), StatEntry { count: 2, last_seen: 2 }),
            ("k".to_string(), StatEntry { count: 3, last_seen: 3 }),
        ],
    };
    let storage = Storage::load(Some(&snapshot));
    assert_eq!(storage.long_name_of(7), "Alicia");
    assert_eq!(storage.long_name_of(8), "Bob");
    assert_eq!(storage.stat("k"), Some(StatEntry { count: 3, last_seen: 3 }));
    assert_eq!(
        storage.save().stats,
        vec![
            ("a".to_string(), StatEntry { count: 2, last_seen: 2 }),
            ("k".to_string(), StatEntry { count: 3, last_seen: 3 }),
        ]
    );
}

#[test]
fn decimal_text_writes_numerals() {
    assert_eq!(decimal_text(0), "0");
    assert_eq!(decimal_text(7), "7");
    assert_eq!(decimal_text(10), "10");
    assert_eq!(decimal_text(99), "99");
    assert_eq!(decimal_text(100), "100");
    assert_eq!(decimal_text(4294967295), "4294967295");
    assert_eq!(decimal_text(u64::MAX), "18446744073709551615");
    for n in [1u64, 9, 11, 909, 1000, 65535, 1234567890] {
        assert_eq!(decimal_text(n), n.to_string());
    }
}

#[test]
fn parse_decimal_reads_numerals_and_nothing_else() {
    assert_eq!(parse_decimal("0"), Some(0));
    assert_eq!(parse_decimal("7"), Some(7));
    assert_eq!(parse_decimal("10"), Some(10));
    assert_eq!(parse_decimal("4294967295"), Some(4294967295));
    assert_eq!(parse_decimal("4294967296"), None);
    assert_eq!(parse_decimal("9999999999"), None);
    assert_eq!(parse_decimal("10000000000"), None);
    assert_eq!(parse_decimal(""), None);
    assert_eq!(parse_decimal("00"), None);
    assert_eq!(parse_decimal("01"), None);
    assert_eq!(parse_decimal("1a"), None);
    assert_eq!(parse_decimal("a1"), None);
    assert_eq!(parse_decimal("+1"), None);
    assert_eq!(parse_decimal("-1"), None);
    assert_eq!(parse_decimal("1 "), None);
    assert_eq!(parse_decimal("1.0"), None);
    assert_eq!(parse_decimal("/"), None);
    assert_eq!(parse_decimal(":"), None);
    assert_eq!(parse_decimal("１"), None);
    assert_eq!(parse_decimal("é"), None);
    for n in [0u32, 1, 9, 10, 19, 4000000000, u32::MAX] {
        assert_eq!(parse_decimal(&decimal_text(n as u64)), Some(n));
    }
}
