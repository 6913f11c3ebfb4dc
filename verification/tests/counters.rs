use mbbs::protobufs::{MeshPacket, User};
use mbbs::snapshot::Snapshot;
use mbbs::stats::{rank, Rank, StatEntry, Stats};
use mbbs::storage::Storage;

fn packet_from(from: u32) -> MeshPacket {
    MeshPacket { from, to: 0xffff_ffff, payload_variant: None }
}

fn named(long_name: &str) -> User {
    User {
        id: String::new(),
        long_name: long_name.to_string(),
        short_name: String::new(),
        macaddr: Vec::new(),
        hw_model: 0,
        is_licensed: false,
        role: 0,
        public_key: Vec::new(),
        is_unmessagable: None,
    }
}

#[test]
fn first_sighting_counts_one() {
    let mut stats = Stats::new();
    assert_eq!(stats.get("a"), None);
    stats.bump("a", 100);
    assert_eq!(stats.get("a"), Some(StatEntry { count: 1, last_seen: 100 }));
    assert_eq!(stats.get("b"), None);
}

#[test]
fn k_sightings_count_k_and_keep_the_last_time() {
    let mut stats = Stats::new();
    let times: [u64; 5] = [10, 20, 30, 25, 40];
    for t in times {
        stats.bump("Alice:TextMessage", t);
    }
    assert_eq!(
        stats.get("Alice:TextMessage"),
        Some(StatEntry { count: 5, last_seen: 40 })
    );
}

#[test]
fn last_seen_is_overwritten_even_by_an_earlier_time() {
    let mut stats = Stats::new();
    stats.bump("k", 50);
    stats.bump("k", 7);
    assert_eq!(stats.get("k"), Some(StatEntry { count: 2, last_seen: 7 }));
}

#[test]
fn counters_are_kept_apart_by_key() {
    let mut stats = Stats::new();
    stats.bump("b", 1);
    stats.bump("a", 2);
    stats.bump("b", 3);
    assert_eq!(stats.get("a"), Some(StatEntry { count: 1, last_seen: 2 }));
    assert_eq!(stats.get("b"), Some(StatEntry { count: 2, last_seen: 3 }));
    assert_eq!(stats.get(""), None);
}

#[test]
fn counters_are_listed_in_the_order_of_their_keys() {
    let mut stats = Stats::new();
    for key in ["pear", "apple", "Zed", "apple pie", "", "éclair", "apple"] {
        stats.bump(key, 1);
    }
    let keys: Vec<String> = stats.entries().into_iter().map(|row| row.0).collect();
    let mut sorted = keys.clone();
    sorted.sort();
    assert_eq!(keys, sorted);
    assert_eq!(keys, vec!["", "Zed", "apple", "apple pie", "pear", "éclair"]);
}

#[test]
fn put_sets_and_replaces() {
    let mut stats = Stats::new();
    stats.put("k", StatEntry { count: 9, last_seen: 1 });
    stats.put("k", StatEntry { count: 3, last_seen: 2 });
    assert_eq!(stats.get("k"), Some(StatEntry { count: 3, last_seen: 2 }));
    assert_eq!(stats.entries().len(), 1);
}

#[test]
fn rank_is_the_order_of_str() {
    assert_eq!(rank("a", "b"), Rank::Before);
    assert_eq!(rank("b", "a"), Rank::After);
    assert_eq!(rank("a", "a"), Rank::Same);
    assert_eq!(rank("", ""), Rank::Same);
    assert_eq!(rank("", "a"), Rank::Before);
    assert_eq!(rank("ab", "a"), Rank::After);
    assert_eq!(rank("Z", "a"), Rank::Before);
    assert_eq!(rank("z", "é"), Rank::Before);
    let words = ["", "a", "ab", "b", "Z", "é", "z", "10", "9", "\u{10000}", "\u{ffff}"];
    for x in words {
        for y in words {
            let expected = if x < y {
                Rank::Before
            } else if x == y {
                Rank::Same
            } else {
                Rank::After
            };
            assert_eq!(rank(x, y), expected);
        }
    }
}

#[test]
fn insert_stat_counts_under_the_senders_name() {
    let mut storage = Storage::new();
    storage.insert_stat(&packet_from(7), "TextMessage", 100);
    assert_eq!(
        storage.stat("7:TextMessage"),
        Some(StatEntry { count: 1, last_seen: 100 })
    );
    storage.upsert(7, named("Alice"));
    storage.insert_stat(&packet_from(7), "TextMessage", 110);
    storage.insert_stat(&packet_from(7), "TextMessage", 120);
    assert_eq!(
        storage.stat("Alice:TextMessage"),
        Some(StatEntry { count: 2, last_seen: 120 })
    );
    assert_eq!(
        storage.stat("7:TextMessage"),
        Some(StatEntry { count: 1, last_seen: 100 })
    );
    assert_eq!(storage.stat("Alice:Unknown"), None);
}

#[test]
fn a_run_from_the_broadcast_address_counts_under_the_word() {
    let mut storage = Storage::new();
    for t in [5u64, 9, 7] {
        storage.insert_stat(&packet_from(0xffff_ffff), "TextMessage", t);
    }
    assert_eq!(
        storage.stat("BROADCAST:TextMessage"),
        Some(StatEntry { count: 3, last_seen: 7 })
    );
    assert_eq!(storage.stat("4294967295:TextMessage"), None);
}

#[test]
fn a_full_counter_has_no_room() {
    let snapshot = Snapshot {
        users: Vec::new(),
        stats: vec![
            ("7:TextMessage".to_string(), StatEntry { count: u32::MAX, last_seen: 5 }),
            ("8:TextMessage".to_string(), StatEntry { count: u32::MAX - 1, last_seen: 5 }),
        ],
    };
    let mut storage = Storage::load(Some(&snapshot));
    assert!(!storage.stat_has_room(&packet_from(7), "TextMessage"));
    assert!(!storage.key_has_room("7:TextMessage"));
    assert!(storage.stat_has_room(&packet_from(8), "TextMessage"));
    assert!(storage.stat_has_room(&packet_from(9), "TextMessage"));
    storage.insert_stat(&packet_from(8), "TextMessage", 6);
    assert_eq!(
        storage.stat("8:TextMessage"),
        Some(StatEntry { count: u32::MAX, last_seen: 6 })
    );
    assert!(!storage.stat_has_room(&packet_from(8), "TextMessage"));
}
