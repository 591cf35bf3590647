use cosmic_connect_plugins::stream_frame::{
    extract_cursor_position, CursorMeta, MetaRecord, SPA_META_CURSOR, SPA_META_CURSOR_SIZE,
};

#[test]
fn test_extract_cursor_position_null_buffer() {
    let result = extract_cursor_position(&[]);
    assert!(result.is_none());
}

#[test]
fn test_extract_cursor_position_no_metas() {
    let metas: Vec<MetaRecord> = Vec::new();
    let result = extract_cursor_position(&metas);
    assert!(result.is_none());
}

#[test]
fn test_extract_cursor_position_valid() {
    let meta = MetaRecord {
        meta_type: SPA_META_CURSOR,
        size: SPA_META_CURSOR_SIZE,
        cursor: Some(CursorMeta { id: 1, x: 500, y: 300 }),
    };

    let result = extract_cursor_position(&[meta]);
    assert!(result.is_some());
    let update = result.unwrap();
    assert_eq!(update.x, 500);
    assert_eq!(update.y, 300);
    assert!(update.visible);
}

#[test]
fn test_extract_cursor_position_invisible() {
    let meta = MetaRecord {
        meta_type: SPA_META_CURSOR,
        size: SPA_META_CURSOR_SIZE,
        cursor: Some(CursorMeta { id: 0, x: 100, y: 200 }),
    };

    let result = extract_cursor_position(&[meta]);
    assert!(result.is_some());
    let update = result.unwrap();
    assert_eq!(update.x, 100);
    assert_eq!(update.y, 200);
    assert!(!update.visible);
}

#[test]
fn test_extract_cursor_position_wrong_meta_type() {
    let meta = MetaRecord { meta_type: 1, size: 64, cursor: None };

    let result = extract_cursor_position(&[meta]);
    assert!(result.is_none());
}
