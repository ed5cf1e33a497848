use systemd::id128::Id128;
use systemd::journal::Journal;
use systemd::journal::JournalEntry;
use systemd::journal::JournalEntryField;
use systemd::journal::JournalFiles;
use systemd::journal::JournalWaitResult;
use systemd::journal::OpenOptions;

fn field(b: &[u8]) -> JournalEntryField {
    JournalEntryField::from_bytes(b.to_vec())
}

fn entry(fields: &[&[u8]], realtime: u64, monotonic: u64) -> JournalEntry {
    let fs: Vec<JournalEntryField> = fields.iter().map(|b| field(b)).collect();
    JournalEntry::new(fs, realtime, monotonic, Id128::default())
}

#[test]
fn journal_entry_data_1() {
    let jrd = JournalEntryField::from_bytes(b"HI=foo".to_vec());

    assert_eq!(jrd.data(), &b"HI=foo"[..]);
    assert_eq!(jrd.name(), &b"HI"[..]);
    assert_eq!(jrd.value(), Some(&b"foo"[..]));
}

#[test]
fn journal_entry_data_without_value() {
    let jrd = JournalEntryField::from_bytes(b"NOVALUE".to_vec());
    assert_eq!(jrd.name(), &b"NOVALUE"[..]);
    assert_eq!(jrd.value(), None);

    let jrd = JournalEntryField::from_bytes(b"A=b=c".to_vec());
    // the split is at the first equals sign
    assert_eq!(jrd.name(), &b"A"[..]);
    assert_eq!(jrd.value(), Some(&b"b=c"[..]));
}

#[test]
fn iterate_entries() {
    let mut j = OpenOptions::default().open().unwrap();
    j.feed_entry(entry(&[b"MESSAGE=first", b"PRIORITY=6"], 100, 10));
    j.feed_entry(entry(&[b"MESSAGE=second"], 200, 20));

    let r1 = j.next_entry().unwrap().unwrap();
    assert_eq!(
        r1.get(&String::from("MESSAGE")).unwrap().as_str(),
        "first"
    );
    assert_eq!(r1.get(&String::from("PRIORITY")).unwrap().as_str(), "6");
    assert_eq!(r1.len(), 2);
    assert_eq!(j.timestamp().unwrap(), 100);
    assert_eq!(j.monotonic_timestamp_current_boot().unwrap(), 10);
    let (mono, boot) = j.monotonic_timestamp().unwrap();
    assert_eq!(mono, 10);
    assert_eq!(boot.as_bytes(), &[0u8; 16][..]);

    let r2 = j.next_entry().unwrap().unwrap();
    assert_eq!(
        r2.get(&String::from("MESSAGE")).unwrap().as_str(),
        "second"
    );
    assert!(r2.get(&String::from("PRIORITY")).is_none());

    assert!(j.next_entry().unwrap().is_none());

    // walking back yields the entries in reverse
    let back = j.previous_entry().unwrap().unwrap();
    assert_eq!(
        back.get(&String::from("MESSAGE")).unwrap().as_str(),
        "second"
    );
}

#[test]
fn seek_head_and_tail() {
    let mut j = Journal::open(JournalFiles::All, false, false).unwrap();
    j.feed_entry(entry(&[b"MESSAGE=only"], 1, 1));

    j.seek_tail();
    assert!(j.next_entry().unwrap().is_none());
    let r = j.previous_entry().unwrap().unwrap();
    assert_eq!(r.get(&String::from("MESSAGE")).unwrap().as_str(), "only");

    j.seek_head();
    let r = j.next_entry().unwrap().unwrap();
    assert_eq!(r.get(&String::from("MESSAGE")).unwrap().as_str(), "only");
}

#[test]
fn timestamp_needs_position() {
    let mut j = OpenOptions::default().open().unwrap();
    j.feed_entry(entry(&[b"MESSAGE=x"], 5, 5));
    // before the first entry there is nothing to probe
    let e = j.timestamp().err().unwrap();
    assert_eq!(e.code, systemd::EADDRNOTAVAIL);
    j.next().unwrap();
    assert_eq!(j.timestamp().unwrap(), 5);
}

#[test]
fn get_data_finds_fields() {
    let mut j = OpenOptions::default().open().unwrap();
    j.feed_entry(entry(&[b"RUST_TEST_MARKER=1", b"MESSAGE=m"], 1, 1));
    j.next().unwrap();

    let f = j.get_data(b"RUST_TEST_MARKER").unwrap().unwrap();
    assert_eq!(f.data(), &b"RUST_TEST_MARKER=1"[..]);
    assert_eq!(f.value(), Some(&b"1"[..]));
    assert!(j.get_data(b"THIS_DOES_NOT_EXIST").unwrap().is_none());
}

#[test]
fn enumerate_and_restart() {
    let mut j = OpenOptions::default().open().unwrap();
    j.feed_entry(entry(&[b"A=1", b"B=2"], 1, 1));
    j.next().unwrap();

    let f1 = j.enumerate_data().unwrap().unwrap();
    assert_eq!(f1.data(), &b"A=1"[..]);
    let f2 = j.enumerate_data().unwrap().unwrap();
    assert_eq!(f2.data(), &b"B=2"[..]);
    assert!(j.enumerate_data().unwrap().is_none());

    j.restart_data();
    let again = j.enumerate_data().unwrap().unwrap();
    assert_eq!(again.data(), &b"A=1"[..]);
}

#[test]
fn await_next_entry_reacts_to_wait() {
    let mut j = OpenOptions::default().open().unwrap();
    assert!(j.await_next_entry(JournalWaitResult::Nop).unwrap().is_none());
    j.feed_entry(entry(&[b"MESSAGE=fresh"], 1, 1));
    let r = j
        .await_next_entry(JournalWaitResult::Append)
        .unwrap()
        .unwrap();
    assert_eq!(r.get(&String::from("MESSAGE")).unwrap().as_str(), "fresh");
    assert!(j
        .await_next_entry(JournalWaitResult::Invalidate)
        .unwrap()
        .is_none());
}

#[test]
fn record_insert_replaces_by_name() {
    let mut j = OpenOptions::default().open().unwrap();
    j.feed_entry(entry(&[b"K=old", b"K=new", b"L=1"], 1, 1));
    let r = j.next_entry().unwrap().unwrap();
    // the later value wins, the first position is kept
    assert_eq!(r.len(), 2);
    assert_eq!(r.get(&String::from("K")).unwrap().as_str(), "new");
    let entries = r.entries();
    assert_eq!(entries[0].0, "K");
    assert_eq!(entries[1].0, "L");
}

#[test]
fn match_terms_are_recorded() {
    let mut j = OpenOptions::default().open().unwrap();
    j.match_add("RUST_TEST_MARKER", b"RUST_SYSTEMD_SIMPLE_MATCH").unwrap();
    j.match_or().unwrap();
    j.match_add("PRIORITY", b"6").unwrap();
    j.match_and().unwrap();
    j.match_flush().unwrap();
}

#[test]
fn data_threshold_round_trip() {
    let mut j = OpenOptions::default().open().unwrap();
    assert_eq!(j.data_threshold().unwrap(), 65536);
    j.set_data_threshold(64).unwrap();
    assert_eq!(j.data_threshold().unwrap(), 64);
}

#[test]
fn display_entry_text() {
    let mut j = OpenOptions::default().open().unwrap();
    j.feed_entry(entry(&[b"A=1", b"B=2"], 1, 1));
    j.next().unwrap();
    let d = j.display_entry_data();
    assert_eq!(d.render(), "{\n \"A=1\",\n \"B=2\",\n}\n");
}

#[test]
fn open_flags() {
    let mut o = OpenOptions::default();
    assert_eq!(o.raw_flags(), 0);
    o.current_user(true);
    o.local_only(true);
    assert_eq!(o.raw_flags(), 8 | 1);
    o.system(true);
    o.runtime_only(true);
    o.all_namespaces(true);
    o.include_default_namespace(true);
    o.extra_raw_flags(16);
    assert_eq!(o.raw_flags(), 1 | 2 | 4 | 8 | 16 | 32 | 64);
}

#[test]
fn log_fields() {
    let fields = systemd::journal::log(6, "src/a.rs", 1213, "my::module", "HI info");
    assert_eq!(
        fields,
        vec![
            String::from("PRIORITY=6"),
            String::from("MESSAGE=HI info"),
            String::from("CODE_LINE=1213"),
            String::from("CODE_FILE=src/a.rs"),
            String::from("CODE_MODULE=my::module"),
        ]
    );
}

#[test]
fn log_record_fields() {
    let fields = systemd::journal::log_record(
        4,
        "HI warn with target",
        "systemd-tests",
        Some(42),
        Some("lib.rs"),
        None,
    );
    assert_eq!(
        fields,
        vec![
            String::from("PRIORITY=4"),
            String::from("MESSAGE=HI warn with target"),
            String::from("TARGET=systemd-tests"),
            String::from("CODE_LINE=42"),
            String::from("CODE_FILE=lib.rs"),
        ]
    );
}

#[test]
fn skip_entries() {
    let mut j = OpenOptions::default().open().unwrap();
    for k in 0..5u64 {
        j.feed_entry(entry(&[b"MESSAGE=x"], 100 + k, k));
    }
    assert_eq!(j.next_skip(3).unwrap(), 3);
    assert_eq!(j.timestamp().unwrap(), 102);
    // running past the tail lands on fewer entries than asked
    assert_eq!(j.next_skip(10).unwrap(), 2);
    assert_eq!(j.previous_skip(2).unwrap(), 2);
    assert_eq!(j.timestamp().unwrap(), 103);
    assert_eq!(j.previous_skip(10).unwrap(), 3);
    assert_eq!(j.next_skip(0).unwrap(), 0);
}

#[test]
fn seek_by_clock() {
    let mut j = OpenOptions::default().open().unwrap();
    j.feed_entry(entry(&[b"MESSAGE=a"], 100, 10));
    j.feed_entry(entry(&[b"MESSAGE=b"], 200, 20));
    j.feed_entry(entry(&[b"MESSAGE=c"], 300, 30));

    j.seek_realtime_usec(150).unwrap();
    j.next().unwrap();
    assert_eq!(j.timestamp().unwrap(), 200);

    j.seek_realtime_usec(999).unwrap();
    assert!(j.next_entry().unwrap().is_none());

    j.seek_monotonic_usec(&Id128::default(), 25).unwrap();
    j.next().unwrap();
    assert_eq!(j.monotonic_timestamp_current_boot().unwrap(), 30);
}
