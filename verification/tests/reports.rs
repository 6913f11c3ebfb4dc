use mbbs::protobufs::MeshPacket;
use mbbs::report::{pad_left, stamp, write_report, write_stat_line};
use mbbs::snapshot::Snapshot;
use mbbs::stats::StatEntry;
use mbbs::storage::Storage;

#[test]
fn pad_left_fills_up_to_the_width() {
    assert_eq!(pad_left("", 10), "          ");
    assert_eq!(pad_left("abc", 10), "       abc");
    assert_eq!(pad_left("abcdefghij", 10), "abcdefghij");
    assert_eq!(pad_left("abcdefghijk", 10), "abcdefghijk");
    assert_eq!(pad_left("grüße", 10), "     grüße");
    assert_eq!(pad_left("x", 0), "x");
    assert_eq!(pad_left("abc", 10), format!("{:>10}", "abc"));
    assert_eq!(pad_left("grüße", 10), format!("{:>10}", "grüße"));
}

#[test]
fn stamp_shows_month_day_and_time_of_day() {
    assert_eq!(stamp(0), Some("01-01 00:00:00".to_string()));
    assert_eq!(stamp(1), Some("01-01 00:00:01".to_string()));
    assert_eq!(stamp(86399), Some("01-01 23:59:59".to_string()));
    assert_eq!(stamp(1700000000), Some("11-14 22:13:20".to_string()));
    assert_eq!(stamp(1709210096), Some("02-29 12:34:56".to_string()));
    assert_eq!(stamp(253402300799), Some("12-31 23:59:59".to_string()));
}

#[test]
fn stamp_has_nothing_for_a_moment_without_a_date() {
    assert_eq!(stamp(253402300800), None);
    assert_eq!(stamp(u64::MAX), None);
    assert_eq!(stamp(1 << 63), None);
    assert_eq!(stamp(i64::MAX as u64), None);
}

#[test]
fn stat_line_is_key_count_and_time() {
    let entry = StatEntry { count: 12, last_seen: 0 };
    assert_eq!(
        write_stat_line("Alice:Text", entry, "01-01 00:00:00"),
        "Alice:Text: 12 [01-01 00:00:00]"
    );
    assert_eq!(write_stat_line("a", entry, ""), "         a: 12 []");
    assert_eq!(
        write_stat_line("Alice:TextMessage", StatEntry { count: u32::MAX, last_seen: 0 }, "x"),
        "Alice:TextMessage: 4294967295 [x]"
    );
}

#[test]
fn the_report_has_a_head_a_line_for_each_counter_and_a_foot() {
    let mut storage = Storage::new();
    let packet = |from| MeshPacket { from, to: 1, payload_variant: None };
    storage.insert_stat(&packet(7), "TextMessage", 1700000000);
    storage.insert_stat(&packet(7), "TextMessage", 1700000010);
    storage.insert_stat(&packet(3), "Unknown", 0);
    assert_eq!(
        storage.print_stats(),
        Some(vec![
            "Stats -------------------------------------".to_string(),
            " 3:Unknown: 1 [01-01 00:00:00]".to_string(),
            "7:TextMessage: 2 [11-14 22:13:30]".to_string(),
            "------------------------------------------".to_string(),
        ])
    );
}

#[test]
fn the_report_on_nothing_is_head_and_foot() {
    assert_eq!(
        Storage::new().print_stats(),
        Some(vec![
            "Stats -------------------------------------".to_string(),
            "------------------------------------------".to_string(),
        ])
    );
    assert_eq!(write_report(&Vec::new()), Storage::new().print_stats());
}

#[test]
fn there_is_no_report_where_a_time_cannot_be_shown() {
    let snapshot = Snapshot {
        users: Vec::new(),
        stats: vec![
            ("a".to_string(), StatEntry { count: 1, last_seen: 5 }),
            ("b".to_string(), StatEntry { count: 1, last_seen: u64::MAX }),
        ],
    };
    assert_eq!(Storage::load(Some(&snapshot)).print_stats(), None);
}
