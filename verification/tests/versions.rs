use lilia_backend::versions::{
    count_words, create_version, delete_version, list_versions, manifest_or_empty,
    restore_version, versions_dir, CreateOutcome, VersionError, VersionManifest,
};
use lilia_backend::hashing::{content_hash, document_hash};
use sha2::Digest;

fn empty_manifest() -> VersionManifest {
    VersionManifest { versions: Vec::new() }
}

fn create(manifest: &mut VersionManifest, content: &str) -> CreateOutcome {
    create_version(manifest, "/doc/a.lml", content, None)
}

#[test]
fn create_fills_entry_fields() {
    let mut m = empty_manifest();
    let outcome = create_version(&mut m, "/doc/a.lml", "hello world", Some("first".to_string()));
    match outcome {
        CreateOutcome::Created { entry, blob, evicted } => {
            assert_eq!(entry.document_path, "/doc/a.lml");
            assert_eq!(entry.comment, Some("first".to_string()));
            assert_eq!(entry.word_count, 2);
            assert_eq!(entry.id.len(), 36);
            assert_eq!(entry.file_size_bytes, blob.len() as u64);
            assert_eq!(entry.content_hash, content_hash("hello world"));
            assert!(evicted.is_empty());
            assert_eq!(m.versions.len(), 1);
            assert_eq!(m.versions[0].id, entry.id);
        },
        CreateOutcome::Unchanged(_) => panic!("first create must make a new entry"),
    }
}

#[test]
fn content_hash_matches_truncated_sha256() {
    // sha2 and hex are called directly here, so a wrapper that handed its
    // input back unchanged would be caught.
    let digest = sha2::Sha256::digest("hello world".as_bytes());
    let expected = hex::encode(&digest[..8]);
    assert_eq!(content_hash("hello world"), expected);
    assert_eq!(content_hash("abc"), "ba7816bf8f01cfea");
    assert_eq!(content_hash("abc").len(), 16);
}

#[test]
fn idempotent_create_returns_same_entry() {
    let mut m = empty_manifest();
    let first = match create(&mut m, "same text") {
        CreateOutcome::Created { entry, .. } => entry,
        _ => panic!("expected a new entry"),
    };
    match create(&mut m, "same text") {
        CreateOutcome::Unchanged(entry) => {
            assert_eq!(entry.id, first.id);
            assert_eq!(entry.content_hash, first.content_hash);
        },
        _ => panic!("second create with identical content must dedup"),
    }
    assert_eq!(m.versions.len(), 1);
}

#[test]
fn creates_order_newest_first() {
    let mut m = empty_manifest();
    let mut ids: Vec<String> = Vec::new();
    for i in 0..5 {
        match create(&mut m, &format!("content number {}", i)) {
            CreateOutcome::Created { entry, .. } => ids.push(entry.id),
            _ => panic!("distinct content must create"),
        }
    }
    let listed = list_versions(Some(m));
    assert_eq!(listed.len(), 5);
    for i in 0..5 {
        // newest first: listed[0] is the last created
        assert_eq!(listed[i].id, ids[4 - i]);
    }
}

#[test]
fn retention_caps_at_hundred() {
    let mut m = empty_manifest();
    let mut first_id = String::new();
    let mut evicted_total: Vec<String> = Vec::new();
    for i in 0..101 {
        match create(&mut m, &format!("distinct {}", i)) {
            CreateOutcome::Created { entry, evicted, .. } => {
                if i == 0 {
                    first_id = entry.id.clone();
                }
                evicted_total.extend(evicted);
            },
            _ => panic!("distinct content must create"),
        }
    }
    assert_eq!(m.versions.len(), 100);
    assert_eq!(evicted_total, vec![first_id.clone()]);
    assert!(m.versions.iter().all(|v| v.id != first_id));
}

#[test]
fn restore_round_trips_created_blob() {
    let mut m = empty_manifest();
    let content = "arbitrary UTF-8 – ünïcode 🚀 text\nwith lines";
    match create(&mut m, content) {
        CreateOutcome::Created { blob, .. } => {
            assert_ne!(blob.as_slice(), content.as_bytes());
            let restored = restore_version(Some(blob)).expect("blob must decompress");
            assert_eq!(restored, content);
        },
        _ => panic!("expected a new entry"),
    }
}

#[test]
fn dedup_checks_only_the_head() {
    let mut m = empty_manifest();
    let id_a = match create(&mut m, "content A") {
        CreateOutcome::Created { entry, .. } => entry.id,
        _ => panic!(),
    };
    match create(&mut m, "content B") {
        CreateOutcome::Created { .. } => {},
        _ => panic!(),
    }
    // content identical to A again: the head is B, so this must create.
    match create(&mut m, "content A") {
        CreateOutcome::Created { entry, .. } => assert_ne!(entry.id, id_a),
        _ => panic!("older identical content must still create a new entry"),
    }
    assert_eq!(m.versions.len(), 3);
}

#[test]
fn delete_removes_entry_and_restore_fails() {
    let mut m = empty_manifest();
    let id = match create(&mut m, "to be deleted") {
        CreateOutcome::Created { entry, .. } => entry.id,
        _ => panic!(),
    };
    create(&mut m, "to be kept");
    delete_version(&mut m, &id);
    assert_eq!(m.versions.len(), 1);
    assert!(m.versions.iter().all(|v| v.id != id));
    // the blob file is gone too, so a restore finds nothing
    assert_eq!(restore_version(None), Err(VersionError::NotFound));
}

#[test]
fn delete_of_unknown_id_changes_nothing() {
    let mut m = empty_manifest();
    create(&mut m, "something");
    delete_version(&mut m, "no-such-id");
    assert_eq!(m.versions.len(), 1);
}

#[test]
fn restore_of_garbage_is_a_decompress_error() {
    let garbage: Vec<u8> = vec![1, 2, 3, 4, 5];
    assert_eq!(restore_version(Some(garbage)), Err(VersionError::Decompress));
}

#[test]
fn directories_are_isolated_per_path() {
    let root = "/data";
    let a = versions_dir(root, "/home/u/report.lml");
    let b = versions_dir(root, "/home/u/old/report.lml");
    assert_ne!(a, b);
    let c = versions_dir(root, "/home/u/report.lml");
    assert_eq!(a, c);
    assert_eq!(a, format!("/data/versions/{}", document_hash("/home/u/report.lml")));
    assert_eq!(document_hash("/home/u/report.lml").len(), 16);
}

#[test]
fn manifest_read_policy_defaults_to_empty() {
    let m = manifest_or_empty(None);
    assert!(m.versions.is_empty());
    assert!(list_versions(None).is_empty());
}

#[test]
fn word_counts() {
    assert_eq!(count_words(""), 0);
    assert_eq!(count_words("   "), 0);
    assert_eq!(count_words("one"), 1);
    assert_eq!(count_words("  spread \t out\nwords  "), 3);
    assert_eq!(count_words("non\u{a0}breaking space"), 3);
}

#[test]
fn distinct_creates_get_distinct_ids() {
    let mut m = empty_manifest();
    let a = match create(&mut m, "x") {
        CreateOutcome::Created { entry, .. } => entry.id,
        _ => panic!(),
    };
    let b = match create(&mut m, "y") {
        CreateOutcome::Created { entry, .. } => entry.id,
        _ => panic!(),
    };
    assert_ne!(a, b);
}
