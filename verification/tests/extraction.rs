use std::io::{Cursor, Write};

use korone::extract::{plan_extraction, note_write_result, EntryPlan, ExtractionReport};
use zip::write::SimpleFileOptions;
use zip::ZipWriter;

fn build_zip(entries: &[(&str, Option<&[u8]>)]) -> Vec<u8> {
    let mut w = ZipWriter::new(Cursor::new(Vec::new()));
    let opts = SimpleFileOptions::default();
    for (name, data) in entries {
        match data {
            None => w.add_directory(*name, opts).unwrap(),
            Some(bytes) => {
                w.start_file(*name, opts).unwrap();
                w.write_all(bytes).unwrap();
            }
        }
    }
    w.finish().unwrap().into_inner()
}

/// Corrupts the stored CRC of the first entry, in the local file header and
/// in the central directory, so that reading that entry fails while the
/// container itself stays valid.
fn corrupt_first_entry_crc(bytes: &mut [u8]) {
    let local_sig = [0x50, 0x4B, 0x03, 0x04];
    let central_sig = [0x50, 0x4B, 0x01, 0x02];
    let local = find_first(bytes, &local_sig).expect("local header");
    for k in 0..4 {
        bytes[local + 14 + k] ^= 0xFF;
    }
    let central = find_first(bytes, &central_sig).expect("central header");
    for k in 0..4 {
        bytes[central + 16 + k] ^= 0xFF;
    }
}

fn find_first(haystack: &[u8], needle: &[u8]) -> Option<usize> {
    haystack.windows(needle.len()).position(|w| w == needle)
}

#[test]
fn plans_follow_archive_order() {
    let bytes = build_zip(&[
        ("d", None),
        ("d/f.txt", Some(b"hello")),
        ("x.txt", Some(b"world")),
    ]);
    let (plans, rep) = plan_extraction(&bytes).unwrap();
    assert_eq!(plans.len(), 3);
    match &plans[0] {
        EntryPlan::MakeDir { components } => {
            assert_eq!(components, &vec![String::from("d")]);
        }
        other => panic!("entry 0: unexpected plan {:?}", other),
    }
    match &plans[1] {
        EntryPlan::WriteFile { components, data } => {
            assert_eq!(components, &vec![String::from("d"), String::from("f.txt")]);
            assert_eq!(data.as_slice(), b"hello");
        }
        other => panic!("entry 1: unexpected plan {:?}", other),
    }
    match &plans[2] {
        EntryPlan::WriteFile { components, data } => {
            assert_eq!(components, &vec![String::from("x.txt")]);
            assert_eq!(data.as_slice(), b"world");
        }
        other => panic!("entry 2: unexpected plan {:?}", other),
    }
    assert_eq!(
        rep,
        ExtractionReport {
            total: 3,
            unreadable: 0,
            rejected: 0,
            dirs_planned: 1,
            files_planned: 2,
            written: 0,
            write_failures: 0,
        }
    );
}

#[test]
fn traversal_entry_is_skipped_and_the_rest_proceed() {
    let bytes = build_zip(&[
        ("ok.txt", Some(b"fine")),
        ("../evil.txt", Some(b"escape")),
        ("also_ok.txt", Some(b"fine too")),
    ]);
    let (plans, rep) = plan_extraction(&bytes).unwrap();
    assert_eq!(plans.len(), 3);
    assert!(matches!(&plans[0], EntryPlan::WriteFile { .. }));
    assert!(matches!(&plans[1], EntryPlan::SkipRejected));
    assert!(matches!(&plans[2], EntryPlan::WriteFile { .. }));
    assert_eq!(rep.rejected, 1);
    assert_eq!(rep.files_planned, 2);
}

#[test]
fn absolute_entry_is_skipped() {
    let bytes = build_zip(&[("/abs.txt", Some(b"escape")), ("ok.txt", Some(b"fine"))]);
    let (plans, rep) = plan_extraction(&bytes).unwrap();
    assert!(matches!(&plans[0], EntryPlan::SkipRejected));
    assert!(matches!(&plans[1], EntryPlan::WriteFile { .. }));
    assert_eq!(rep.rejected, 1);
}

#[test]
fn corrupt_entry_is_isolated() {
    let mut bytes = build_zip(&[
        ("bad.txt", Some(b"this one gets corrupted")),
        ("good1.txt", Some(b"one")),
        ("good2.txt", Some(b"two")),
    ]);
    corrupt_first_entry_crc(&mut bytes);
    let (plans, rep) = plan_extraction(&bytes).unwrap();
    assert_eq!(plans.len(), 3);
    assert!(matches!(&plans[0], EntryPlan::SkipUnreadable));
    assert!(matches!(&plans[1], EntryPlan::WriteFile { .. }));
    assert!(matches!(&plans[2], EntryPlan::WriteFile { .. }));
    assert_eq!(rep.unreadable, 1);
    assert_eq!(rep.files_planned, 2);
    assert_eq!(rep.total, 3);
}

#[test]
fn nested_file_without_directory_entries() {
    let bytes = build_zip(&[("a/b/c.txt", Some(b"deep"))]);
    let (plans, _) = plan_extraction(&bytes).unwrap();
    match &plans[0] {
        EntryPlan::WriteFile { components, data } => {
            assert_eq!(
                components,
                &vec![String::from("a"), String::from("b"), String::from("c.txt")]
            );
            assert_eq!(data.as_slice(), b"deep");
        }
        other => panic!("unexpected plan {:?}", other),
    }
}

#[test]
fn invalid_container_is_fatal() {
    let bytes = b"this is not an archive".to_vec();
    assert!(plan_extraction(&bytes).is_err());
}

#[test]
fn empty_archive_yields_empty_plan() {
    let bytes = build_zip(&[]);
    let (plans, rep) = plan_extraction(&bytes).unwrap();
    assert!(plans.is_empty());
    assert_eq!(rep.total, 0);
}

#[test]
fn write_results_are_tallied() {
    let bytes = build_zip(&[("a.txt", Some(b"a")), ("b.txt", Some(b"b"))]);
    let (plans, mut rep) = plan_extraction(&bytes).unwrap();
    assert_eq!(plans.len(), 2);
    note_write_result(&mut rep, true);
    note_write_result(&mut rep, false);
    assert_eq!(rep.written, 1);
    assert_eq!(rep.write_failures, 1);
}
