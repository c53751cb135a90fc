use clipsnap::model::{ContentType, HistoryEntry};
use clipsnap::store::{Database, StorageError};

fn text_of(e: &HistoryEntry) -> &str {
    e.text_content.as_deref().unwrap()
}

#[test]
fn test_insert_and_get_text() {
    let mut db = Database::new_in_memory().unwrap();
    let id = db.insert_text("hello world").unwrap();
    assert!(id > 0);

    let entries = db.get_recent_entries_by_type(10, ContentType::Text).unwrap();
    assert_eq!(entries.len(), 1);
    assert_eq!(entries[0].text_content.as_deref(), Some("hello world"));
    assert_eq!(entries[0].content_type, ContentType::Text);
}

#[test]
fn test_insert_and_get_image() {
    let mut db = Database::new_in_memory().unwrap();
    let png = vec![0x89, 0x50, 0x4E, 0x47];
    let thumb = vec![1, 2, 3];
    let id = db.insert_image(&png, &thumb).unwrap();
    assert!(id > 0);

    let entry = db.get_entry(id).unwrap().unwrap();
    assert_eq!(entry.content_type, ContentType::Image);
    assert_eq!(entry.image_data.unwrap(), png);
    assert_eq!(entry.thumbnail.unwrap(), thumb);
}

#[test]
fn test_search_text() {
    let mut db = Database::new_in_memory().unwrap();
    db.insert_text("foo bar baz").unwrap();
    db.insert_text("hello world").unwrap();
    db.insert_text("foo qux").unwrap();

    let results = db.search_text("foo").unwrap();
    assert_eq!(results.len(), 2);
}

#[test]
fn test_delete_entry() {
    let mut db = Database::new_in_memory().unwrap();
    let id = db.insert_text("to delete").unwrap();
    db.delete_entry(id).unwrap();
    let entry = db.get_entry(id).unwrap();
    assert!(entry.is_none());
}

#[test]
fn test_enforce_max_entries() {
    let mut db = Database::new_in_memory().unwrap();
    for i in 0..10 {
        db.insert_text(&format!("entry {}", i)).unwrap();
    }
    db.enforce_max_entries(5).unwrap();
    let entries = db.get_recent_entries_by_type(100, ContentType::Text).unwrap();
    assert_eq!(entries.len(), 5);
}

#[test]
fn same_text_twice_gives_two_rows() {
    let mut db = Database::new_in_memory().unwrap();
    let a = db.insert_text("hello").unwrap();
    let b = db.insert_text("hello").unwrap();
    assert_ne!(a, b);
    assert_eq!(db.len(), 2);
    let rows = db.get_recent_entries_by_type(10, ContentType::Text).unwrap();
    assert!(rows.iter().all(|e| text_of(e) == "hello"));
}

#[test]
fn recent_entries_newest_first_with_id_tiebreak() {
    let mut db = Database::new_in_memory().unwrap();
    let a = db.insert_text_at("a", 100).unwrap();
    let b = db.insert_text_at("b", 300).unwrap();
    let c = db.insert_text_at("c", 200).unwrap();
    let d = db.insert_text_at("d", 300).unwrap();
    db.insert_image_at(&[1, 2], &[3], 400).unwrap();
    let rows = db.get_recent_entries_by_type(10, ContentType::Text).unwrap();
    let ids: Vec<i64> = rows.iter().map(|e| e.id).collect();
    assert_eq!(ids, vec![d, b, c, a]);
    let two = db.get_recent_entries_by_type(2, ContentType::Text).unwrap();
    assert_eq!(two.iter().map(|e| e.id).collect::<Vec<_>>(), vec![d, b]);
    let images = db.get_recent_entries_by_type(10, ContentType::Image).unwrap();
    assert_eq!(images.len(), 1);
    assert_eq!(images[0].file_size, 2);
}

#[test]
fn text_row_records_byte_length_and_time() {
    let mut db = Database::new_in_memory().unwrap();
    let id = db.insert_text_at("héllo", 1234).unwrap();
    let e = db.get_entry(id).unwrap().unwrap();
    assert_eq!(e.file_size, 6);
    assert_eq!(e.created_at, 1234);
    assert!(e.image_data.is_none());
    assert!(e.thumbnail.is_none());
}

#[test]
fn insert_text_stamps_current_time() {
    let mut db = Database::new_in_memory().unwrap();
    let id = db.insert_text("now").unwrap();
    let e = db.get_entry(id).unwrap().unwrap();
    assert!(e.created_at > 1_600_000_000);
}

#[test]
fn enforce_max_keeps_most_recent() {
    let mut db = Database::new_in_memory().unwrap();
    let mut ids = Vec::new();
    for i in 0..8i64 {
        ids.push(db.insert_text_at(&format!("row {}", i), 1000 + i).unwrap());
    }
    db.enforce_max_entries(3).unwrap();
    let kept: Vec<i64> = db
        .get_recent_entries_by_type(100, ContentType::Text)
        .unwrap()
        .iter()
        .map(|e| e.id)
        .collect();
    assert_eq!(kept, vec![ids[7], ids[6], ids[5]]);
    db.enforce_max_entries(10).unwrap();
    assert_eq!(db.len(), 3);
}

#[test]
fn cleanup_removes_exactly_older_rows() {
    let mut db = Database::new_in_memory().unwrap();
    let now = 10 * 86400;
    db.insert_text_at("old", now - 2 * 86400 - 1).unwrap();
    db.insert_text_at("edge", now - 2 * 86400).unwrap();
    db.insert_text_at("new", now - 10).unwrap();
    db.insert_image_at(&[9], &[], now - 3 * 86400).unwrap();
    let removed = db.cleanup_old_entries_at(2, now).unwrap();
    assert_eq!(removed, 2);
    let rows = db.get_recent_entries_by_type(10, ContentType::Text).unwrap();
    let texts: Vec<&str> = rows.iter().map(text_of).collect();
    assert_eq!(texts, vec!["new", "edge"]);
    assert_eq!(db.len(), 2);
}

#[test]
fn cleanup_by_clock_keeps_fresh_rows() {
    let mut db = Database::new_in_memory().unwrap();
    db.insert_text("fresh").unwrap();
    db.insert_text_at("ancient", 0).unwrap();
    assert_eq!(db.cleanup_old_entries(5).unwrap(), 1);
    assert_eq!(db.len(), 1);
}

#[test]
fn search_caps_at_fifty_and_matches_substrings() {
    let mut db = Database::new_in_memory().unwrap();
    for i in 0..60i64 {
        db.insert_text_at(&format!("needle {}", i), i).unwrap();
    }
    db.insert_text_at("haystack", 1000).unwrap();
    db.insert_text_at("Needle upper", 1001).unwrap();
    db.insert_image_at(&[1], &[1], 1002).unwrap();
    let found = db.search_text("needle").unwrap();
    assert_eq!(found.len(), 50);
    assert!(found.iter().all(|e| text_of(e).contains("needle")));
    assert_eq!(text_of(&found[0]), "needle 59");
    for w in found.windows(2) {
        assert!(w[0].created_at >= w[1].created_at);
    }
    assert_eq!(db.search_text("hay").unwrap().len(), 1);
    assert_eq!(db.search_text("zzz").unwrap().len(), 0);
}

#[test]
fn clear_history_by_type_and_all() {
    let mut db = Database::new_in_memory().unwrap();
    db.insert_text_at("t1", 1).unwrap();
    db.insert_text_at("t2", 2).unwrap();
    db.insert_image_at(&[1], &[2], 3).unwrap();
    assert_eq!(db.clear_history(Some(ContentType::Text)).unwrap(), 2);
    assert_eq!(db.len(), 1);
    assert_eq!(db.clear_history(None).unwrap(), 1);
    assert_eq!(db.len(), 0);
}

#[test]
fn delete_missing_entry_is_noop() {
    let mut db = Database::new_in_memory().unwrap();
    db.insert_text_at("keep", 1).unwrap();
    db.delete_entry(9999).unwrap();
    assert_eq!(db.len(), 1);
}

#[test]
fn image_row_without_content_is_rejected() {
    let mut db = Database::new_in_memory().unwrap();
    let row = HistoryEntry {
        id: 1,
        content_type: ContentType::Image,
        image_data: None,
        thumbnail: Some(vec![1]),
        text_content: None,
        created_at: 5,
        file_size: 0,
    };
    assert_eq!(db.restore_entry(row), Err(StorageError::ConstraintViolation));
    assert_eq!(db.len(), 0);
}

#[test]
fn restore_entry_checks_payload_and_ids() {
    let mut db = Database::new_in_memory().unwrap();
    let text_row = HistoryEntry {
        id: 7,
        content_type: ContentType::Text,
        image_data: None,
        thumbnail: None,
        text_content: Some("back".to_string()),
        created_at: 50,
        file_size: 4,
    };
    assert_eq!(db.restore_entry(text_row.clone()), Ok(()));
    assert_eq!(db.restore_entry(text_row), Err(StorageError::ConstraintViolation));
    let both = HistoryEntry {
        id: 9,
        content_type: ContentType::Text,
        image_data: Some(vec![1]),
        thumbnail: None,
        text_content: Some("x".to_string()),
        created_at: 50,
        file_size: 1,
    };
    assert_eq!(db.restore_entry(both), Err(StorageError::ConstraintViolation));
    let next = db.insert_text_at("after", 60).unwrap();
    assert_eq!(next, 8);
}

#[test]
fn exhausted_identifiers_fail_with_io_failure() {
    let mut db = Database::new_in_memory().unwrap();
    let last = HistoryEntry {
        id: i64::MAX - 1,
        content_type: ContentType::Text,
        image_data: None,
        thumbnail: None,
        text_content: Some("last".to_string()),
        created_at: 1,
        file_size: 4,
    };
    db.restore_entry(last).unwrap();
    assert_eq!(db.insert_text_at("one more", 2), Err(StorageError::IoFailure));
    assert_eq!(db.insert_image_at(&[1], &[], 2), Err(StorageError::IoFailure));
    assert_eq!(db.len(), 1);
}

#[test]
fn content_type_names_round_trip() {
    assert_eq!(ContentType::from_str("image"), Some(ContentType::Image));
    assert_eq!(ContentType::from_str("text"), Some(ContentType::Text));
    assert_eq!(ContentType::from_str("Text"), None);
    assert_eq!(ContentType::Image.to_str(), "image");
    assert_eq!(ContentType::Text.to_str(), "text");
}
