use motionphoto::metadata::{
    resolve, resolve_container, DirectoryItem, FieldName, MetadataError, MetadataTree,
};

fn item(semantic: Option<&str>, mime: Option<&str>, length: Option<i64>) -> DirectoryItem {
    DirectoryItem {
        semantic: semantic.map(|s| s.to_string()),
        mime: mime.map(|s| s.to_string()),
        length,
    }
}

fn motion(length: i64) -> DirectoryItem {
    item(Some("MotionPhoto"), Some("video/mp4"), Some(length))
}

#[test]
fn single_motion_entry_resolves_length() {
    let tree = MetadataTree { directory: vec![motion(42)] };
    assert!(matches!(resolve(&tree), Ok(42)));
}

#[test]
fn first_match_wins_lower_index() {
    let tree = MetadataTree { directory: vec![motion(100), motion(200)] };
    assert!(matches!(resolve(&tree), Ok(100)));
}

#[test]
fn non_motion_entries_skipped_not_erroring() {
    let tree = MetadataTree {
        directory: vec![
            item(Some("Primary"), Some("image/jpeg"), Some(9)),
            item(Some("GainMap"), None, None),
            motion(77),
        ],
    };
    assert!(matches!(resolve(&tree), Ok(77)));
}

#[test]
fn mime_mismatch_fatal_not_skip_and_continue() {
    let tree = MetadataTree {
        directory: vec![
            item(Some("Primary"), Some("image/jpeg"), Some(9)),
            item(Some("MotionPhoto"), Some("image/jpeg"), Some(50)),
            motion(60),
        ],
    };
    match resolve(&tree) {
        Err(MetadataError::UnsupportedMimeType { mime }) => assert_eq!(mime, "image/jpeg"),
        other => panic!("expected UnsupportedMimeType, got {:?}", other),
    }
}

#[test]
fn empty_directory_not_found() {
    let tree = MetadataTree { directory: vec![] };
    assert!(matches!(resolve(&tree), Err(MetadataError::DirectoryItemNotFound)));
}

#[test]
fn no_motion_entry_not_found() {
    let tree = MetadataTree {
        directory: vec![
            item(Some("Primary"), Some("image/jpeg"), Some(1)),
            item(Some("Other"), Some("image/jpeg"), Some(2)),
        ],
    };
    assert!(matches!(resolve(&tree), Err(MetadataError::DirectoryItemNotFound)));
}

#[test]
fn missing_semantic_is_hard_error() {
    let tree = MetadataTree { directory: vec![item(None, Some("video/mp4"), Some(5)), motion(6)] };
    assert!(matches!(
        resolve(&tree),
        Err(MetadataError::MissingField { index: 1, field: FieldName::Semantic })
    ));
}

#[test]
fn missing_mime_names_index_and_field() {
    let tree = MetadataTree {
        directory: vec![
            item(Some("Primary"), None, None),
            item(Some("MotionPhoto"), None, Some(5)),
        ],
    };
    assert!(matches!(
        resolve(&tree),
        Err(MetadataError::MissingField { index: 2, field: FieldName::Mime })
    ));
}

#[test]
fn missing_length_names_index_and_field() {
    let tree = MetadataTree { directory: vec![item(Some("MotionPhoto"), Some("video/mp4"), None)] };
    assert!(matches!(
        resolve(&tree),
        Err(MetadataError::MissingField { index: 1, field: FieldName::Length })
    ));
}

#[test]
fn container_without_metadata_is_missing_metadata() {
    assert!(matches!(resolve_container(None), Err(MetadataError::MissingMetadata)));
}

#[test]
fn container_with_metadata_resolves_through() {
    let tree = MetadataTree { directory: vec![motion(13)] };
    assert!(matches!(resolve_container(Some(&tree)), Ok(13)));
}
