use jolt::store::{write_plan, CachedData, FsOp, DEFAULT_TTL, read_if_valid_at, temp_path, invalidate_owner};

#[test]
fn test_immutable_never_expires() {
    let data = CachedData::new("test", true);

    assert!(!data.is_expired(0));
    assert!(data.is_valid(0));
}

#[test]
fn test_mutable_expires() {
    let mut data = CachedData::new("test", false);

    data.cached_at = data.cached_at - 600 * 1000;

    assert!(data.is_expired(300 * 1000));
    assert!(!data.is_valid(300 * 1000));
}

#[test]
fn fresh_mutable_entry_is_valid_for_five_minutes() {
    let e = CachedData::new_at(vec![1, 2], false, 1_000_000);
    assert!(e.is_valid_at(1_000_000, DEFAULT_TTL));
    assert!(e.is_valid_at(1_000_000 + 300_000, DEFAULT_TTL));
    assert!(!e.is_valid_at(1_000_000 + 300_001, DEFAULT_TTL));
    assert!(e.is_expired_at(1_000_000 + 300_001, DEFAULT_TTL));
    assert_eq!(DEFAULT_TTL, 300_000);
}

#[test]
fn stale_entry_reads_as_miss() {
    let e = CachedData::new_at("x".to_string(), false, 0);
    assert_eq!(read_if_valid_at(Some(e.clone()), 10, DEFAULT_TTL), Some("x".to_string()));
    assert_eq!(read_if_valid_at(Some(e), 400_000, DEFAULT_TTL), None);
    assert_eq!(read_if_valid_at::<String>(None, 0, DEFAULT_TTL), None);
    let im = CachedData::new_at("y".to_string(), true, 0);
    assert_eq!(read_if_valid_at(Some(im), i64::MAX, 0), Some("y".to_string()));
}

#[test]
fn entry_is_stamped_with_the_clock() {
    let e = CachedData::new(1u8, false);
    assert!(e.cached_at > 1_600_000_000_000);
}

#[test]
fn write_goes_through_a_temporary_file() {
    assert_eq!(temp_path("/c/owners.json"), "/c/owners.json.tmp");
    let ops = write_plan("/c/owners.json", "{}".to_string());
    assert_eq!(ops.len(), 4);
    match &ops[1] {
        FsOp::WriteFile { path, contents } => {
            assert_eq!(path, "/c/owners.json.tmp");
            assert_eq!(contents, "{}");
        }
        _ => panic!("second step writes the temporary file"),
    }
    assert!(matches!(&ops[2], FsOp::SyncFile { path } if path == "/c/owners.json.tmp"));
    match &ops[3] {
        FsOp::Rename { from, to } => {
            assert_eq!(from, "/c/owners.json.tmp");
            assert_eq!(to, "/c/owners.json");
        }
        _ => panic!("last step renames"),
    }
}

#[test]
fn invalidating_an_owner_removes_its_tree() {
    match invalidate_owner("my/org").unwrap() {
        FsOp::RemoveTree { path } => assert!(path.ends_with("/owners/my_org")),
        _ => panic!("expected a tree removal"),
    }
}
