use s3_uploader::batch::{decide, summarize, Destination, FieldAction, FieldReport, UploadSummary};
use s3_uploader::decimal::to_decimal;
use s3_uploader::destination::{escapes, local_path, object_host, object_url, parent_dir};
use s3_uploader::naming::{contains_str, field_filename, is_ignored};

fn report(name: &str, stored: bool) -> FieldReport {
    FieldReport { filename: name.to_string(), stored }
}

#[test]
fn ds_store_names_are_ignored() {
    assert!(is_ignored(".DS_Store"));
    assert!(is_ignored("photos/.DS_Store"));
    assert!(is_ignored("a/.DS_Store/b"));
    assert!(!is_ignored("a.txt"));
    assert!(!is_ignored(".DS_Stor"));
    assert!(!is_ignored(""));
}

#[test]
fn substring_search() {
    assert!(contains_str("abc", ""));
    assert!(contains_str("abc", "abc"));
    assert!(contains_str("xxabc", "abc"));
    assert!(!contains_str("ab", "abc"));
    assert!(contains_str("é.DS_Store", ".DS_Store"));
}

#[test]
fn missing_filename_becomes_unnamed() {
    assert_eq!(field_filename(None), "unnamed");
    assert_eq!(field_filename(Some("x/y.bin")), "x/y.bin");
}

#[test]
fn object_urls_use_the_key_verbatim() {
    assert_eq!(object_host("bkt", "eu-west-1"), "bkt.s3.eu-west-1.amazonaws.com");
    assert_eq!(
        object_url("bkt", "eu-west-1", "sub/dir/photo.png"),
        "https://bkt.s3.eu-west-1.amazonaws.com/sub/dir/photo.png"
    );
}

#[test]
fn local_path_keeps_sub_directories() {
    let p = local_path("uploads", "sub/dir/photo.png");
    assert_eq!(p, "uploads/sub/dir/photo.png");
    assert_eq!(parent_dir(&p), Some("uploads/sub/dir".to_string()));
    assert_eq!(parent_dir("photo.png"), None);
    assert_eq!(parent_dir("/x"), Some("".to_string()));
}

#[test]
fn traversal_names_escape() {
    assert!(escapes(""));
    assert!(escapes("/etc/passwd"));
    assert!(escapes(".."));
    assert!(escapes("../../etc/passwd"));
    assert!(escapes("a/../../b"));
    assert!(escapes("a/.."));
    assert!(!escapes("a..b/c"));
    assert!(!escapes("sub/dir/photo.png"));
    assert!(!escapes(".hidden"));
}

#[test]
fn decide_by_name() {
    assert_eq!(decide("a.txt"), FieldAction::Attempt);
    assert_eq!(decide("x/.DS_Store"), FieldAction::Skip);
    assert_eq!(decide("../a.txt"), FieldAction::Reject);
}

#[test]
fn decimal_formatting() {
    assert_eq!(to_decimal(0), "0");
    assert_eq!(to_decimal(7), "7");
    assert_eq!(to_decimal(10), "10");
    assert_eq!(to_decimal(1234567890), "1234567890");
    assert_eq!(to_decimal(u64::MAX), "18446744073709551615");
}

#[test]
fn record_counts_outcomes() {
    let mut s = UploadSummary::new();
    s.record(true);
    s.record(false);
    s.record(true);
    assert_eq!(s, UploadSummary { attempted: 3, succeeded: 2 });
}

#[test]
fn ignored_fields_are_not_counted() {
    let s = summarize(&vec![report(".DS_Store", true), report("d/.DS_Store", true)]);
    assert_eq!(s, UploadSummary { attempted: 0, succeeded: 0 });
}

#[test]
fn all_stored_counts_every_field() {
    let s = summarize(&vec![report("a", true), report("b/c", true), report("d", true)]);
    assert_eq!(s, UploadSummary { attempted: 3, succeeded: 3 });
}

#[test]
fn failures_do_not_stop_the_batch() {
    let s = summarize(&vec![
        report("a", false),
        report("b", true),
        report("c", false),
        report("d", true),
        report("e", true),
    ]);
    assert_eq!(s, UploadSummary { attempted: 5, succeeded: 3 });
}

#[test]
fn rejected_names_count_as_failures() {
    let s = summarize(&vec![report("../x", true), report("ok", true)]);
    assert_eq!(s, UploadSummary { attempted: 2, succeeded: 1 });
}

#[test]
fn two_fields_one_ds_store() {
    let s = summarize(&vec![report("a.txt", true), report(".DS_Store", true)]);
    assert_eq!(s.succeeded, 1);
    assert_eq!(s.message(Destination::Local), "1 files uploaded successfully");
    assert_eq!(s.message(Destination::ObjectStore), "1 files uploaded to S3");
}

#[test]
fn same_name_twice_targets_same_place() {
    assert_eq!(local_path("uploads", "a.txt"), local_path("uploads", "a.txt"));
    let s = summarize(&vec![report("a.txt", true), report("a.txt", true)]);
    assert_eq!(s, UploadSummary { attempted: 2, succeeded: 2 });
}

#[test]
fn chunks_are_concatenated_in_order() {
    let mut buf = Vec::new();
    s3_uploader::batch::append_chunk(&mut buf, b"he");
    s3_uploader::batch::append_chunk(&mut buf, b"");
    s3_uploader::batch::append_chunk(&mut buf, b"llo");
    assert_eq!(buf, b"hello".to_vec());
}
