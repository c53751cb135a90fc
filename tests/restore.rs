use clipsnap::imaging::encode_png;
use clipsnap::model::ContentType;
use clipsnap::restore::{restore_content, ClipboardPayload, RestoreError};
use clipsnap::store::Database;

#[test]
fn text_entry_restores_its_text() {
    let db = Database::new_in_memory().unwrap();
    match restore_content(&db, 1, ContentType::Text, Some("again"), None) {
        Ok(ClipboardPayload::Text(t)) => assert_eq!(t, "again"),
        _ => panic!("text comes back"),
    }
    assert!(matches!(
        restore_content(&db, 1, ContentType::Text, None, None),
        Err(RestoreError::NoContent)
    ));
}

#[test]
fn image_entry_is_read_from_store_and_decoded() {
    let mut db = Database::new_in_memory().unwrap();
    let pixels = vec![9u8; 2 * 3 * 4];
    let png = encode_png(&pixels, 2, 3).unwrap();
    let id = db.insert_image_at(&png, &[], 10).unwrap();
    match restore_content(&db, id, ContentType::Image, None, None) {
        Ok(ClipboardPayload::Image(img)) => {
            assert_eq!((img.width, img.height), (2, 3));
            assert_eq!(img.pixels, pixels);
        }
        _ => panic!("image comes back"),
    }
    assert!(matches!(
        restore_content(&db, id + 1, ContentType::Image, None, None),
        Err(RestoreError::NoContent)
    ));
    assert!(matches!(
        restore_content(&db, id, ContentType::Image, None, Some(&[0, 1, 2])),
        Err(RestoreError::Undecodable)
    ));
}
