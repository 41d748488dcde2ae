use rust_pkg_gen::cache::{cache_plan, check_fetched};
use rust_pkg_gen::digest::content_digest;
use rust_pkg_gen::manifest::SyncError;

const H: &str = "e3b0c44298fc1c149afbf4c8996fb92427ae41e4649b934ca495991b7852b855";
const OTHER: &str = "ba7816bf8f01cfea414140de5dae2223b00361a396177a9cb410ff61f20015ad";

#[test]
fn matching_record_means_no_fetch() {
    let plan = cache_plan(&Some(H.to_string()), &None, H);
    assert!(!plan.fetch);
    assert!(!plan.write_record);
}

#[test]
fn differing_record_means_fetch() {
    let plan = cache_plan(&Some(OTHER.to_string()), &Some(H.to_string()), H);
    assert!(plan.fetch);
    assert!(!plan.write_record);
}

#[test]
fn missing_record_falls_back_to_local_digest() {
    let plan = cache_plan(&None, &Some(H.to_string()), H);
    assert!(!plan.fetch);
    assert!(plan.write_record);
}

#[test]
fn nothing_local_means_fetch() {
    let plan = cache_plan(&None, &None, H);
    assert!(plan.fetch);
    assert!(!plan.write_record);
}

#[test]
fn fetched_match_yields_record() {
    let rec = check_fetched(&Some(H.to_string()), H, "dist/x.tar.gz").unwrap();
    assert_eq!(rec, H);
}

#[test]
fn fetched_mismatch_is_integrity_error() {
    let r = check_fetched(&Some(OTHER.to_string()), H, "dist/x.tar.gz");
    match r {
        Err(SyncError::IntegrityMismatch {
            path,
            expected,
            actual,
        }) => {
            assert_eq!(path, "dist/x.tar.gz");
            assert_eq!(expected, H);
            assert_eq!(actual, OTHER);
        }
        _ => panic!("expected an integrity mismatch"),
    }
}

#[test]
fn fetched_absent_is_integrity_error() {
    let r = check_fetched(&None, H, "dist/x.tar.gz");
    assert!(matches!(
        r,
        Err(SyncError::IntegrityMismatch { .. })
    ));
}

#[test]
fn digest_of_empty_input() {
    assert_eq!(content_digest(&[]), H);
}

#[test]
fn digest_of_known_bytes() {
    assert_eq!(content_digest(b"abc"), OTHER);
}
