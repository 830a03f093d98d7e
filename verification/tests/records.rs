use rustydatabasenotes::block::BlockError;
use rustydatabasenotes::ids::{BlockId, DatabaseId, PageId, PropertyId, PropertyValueId, ViewId};
use rustydatabasenotes::page::PageError;
use rustydatabasenotes::property::{PropertyConfig, PropertyError, PropertyType};
use rustydatabasenotes::records::{
    DecodeError, decode_block_row, decode_database_row, decode_page_row, decode_property_row,
    decode_property_value_row, decode_view_row, is_sqlite_header,
};

const T: &str = "2024-01-02T03:04:05Z";

fn column_of(e: DecodeError) -> (String, String) {
    match e {
        DecodeError::Column { column, reason } => (column, reason),
        other => panic!("not a column error: {other:?}"),
    }
}

#[test]
fn sqlite_header_recognized() {
    assert!(is_sqlite_header(b"SQLite format 3\0"));
    assert!(!is_sqlite_header(b"NOT A SQLITE FILE!!"[..16].as_ref()));
    assert!(!is_sqlite_header(b"SQLite format"));
    assert!(!is_sqlite_header(b""));
}

#[test]
fn decode_page_row_reads_fields() {
    let id = PageId::new();
    let db = DatabaseId::new();
    let page = decode_page_row(&id.to_string(), "  Title ".to_owned(), Some(db.to_string()), None, 7, T, T).unwrap();
    assert_eq!(page.id(), &id);
    assert_eq!(page.title().as_str(), "Title");
    assert_eq!(page.database_id(), Some(&db));
    assert_eq!(page.parent_id(), None);
    assert_eq!(page.sort_order(), 7);
    assert_eq!(page.created_at().secs(), 1_704_164_645);
}

#[test]
fn decode_page_row_reports_first_bad_column() {
    let id = PageId::new().to_string();
    let e = decode_page_row("x", String::new(), Some("y".to_owned()), None, 0, "bad", T).unwrap_err();
    assert_eq!(column_of(e), ("id".to_owned(), "invalid page id".to_owned()));
    let e = decode_page_row(&id, "   ".to_owned(), Some("y".to_owned()), None, 0, T, T).unwrap_err();
    assert_eq!(e, DecodeError::Page(PageError::TitleEmpty));
    let e = decode_page_row(&id, "t".to_owned(), Some("y".to_owned()), None, 0, T, T).unwrap_err();
    assert_eq!(column_of(e), ("database_id".to_owned(), "invalid database_id".to_owned()));
    let e = decode_page_row(&id, "t".to_owned(), None, Some("z".to_owned()), 0, T, T).unwrap_err();
    assert_eq!(column_of(e), ("parent_id".to_owned(), "invalid parent_id".to_owned()));
    let e = decode_page_row(&id, "t".to_owned(), None, None, 0, T, "later").unwrap_err();
    assert_eq!(column_of(e), ("updated_at".to_owned(), "invalid updated_at timestamp".to_owned()));
}

#[test]
fn decode_block_row_validates_content_and_position() {
    let id = BlockId::new().to_string();
    let page = PageId::new().to_string();
    let b = decode_block_row(&id, &page, "text".to_owned(), "hello".to_owned(), 3, T, T).unwrap();
    assert_eq!(b.content().as_str(), "hello");
    assert_eq!(b.position().value(), 3);
    let e = decode_block_row(&id, &page, "text".to_owned(), String::new(), -1, T, T).unwrap_err();
    assert_eq!(e, DecodeError::Block(BlockError::InvalidPosition { value: -1 }));
    let e = decode_block_row(&id, "p", "text".to_owned(), String::new(), 0, T, T).unwrap_err();
    assert_eq!(column_of(e), ("page_id".to_owned(), "invalid page id in block".to_owned()));
}

#[test]
fn decode_database_row_reads_title() {
    let id = DatabaseId::new();
    let d = decode_database_row(&id.to_string(), "DB".to_owned(), T, T).unwrap();
    assert_eq!(d.id(), &id);
    assert_eq!(d.title().as_str(), "DB");
    let e = decode_database_row(&id.to_string(), "DB".to_owned(), "nope", T).unwrap_err();
    assert_eq!(column_of(e), ("created_at".to_owned(), "invalid created_at timestamp".to_owned()));
}

#[test]
fn decode_property_row_checks_type_and_config() {
    let id = PropertyId::new().to_string();
    let db = DatabaseId::new().to_string();
    let p = decode_property_row(&id, &db, "Name".to_owned(), "number", Ok(Some(PropertyConfig::Number)), 2, T, T).unwrap();
    assert_eq!(p.property_type(), PropertyType::Number);
    assert_eq!(p.position(), 2);
    let e = decode_property_row(&id, &db, "Name".to_owned(), "float", Ok(None), 0, T, T).unwrap_err();
    assert_eq!(e, DecodeError::Property(PropertyError::InvalidType { value: "float".to_owned() }));
    let e = decode_property_row(&id, &db, "Name".to_owned(), "text", Err(()), 0, T, T).unwrap_err();
    assert_eq!(column_of(e), ("config".to_owned(), "invalid property config JSON".to_owned()));
}

#[test]
fn decode_property_value_row_reads_boolean_as_nonzero() {
    let id = PropertyValueId::new().to_string();
    let page = PageId::new().to_string();
    let prop = PropertyId::new().to_string();
    let v = decode_property_value_row(&id, &page, &prop, None, None, Some(T.to_owned()), Some(2), T, T).unwrap();
    assert_eq!(v.boolean_value(), Some(true));
    assert_eq!(v.date_value().map(|d| d.secs()), Some(1_704_164_645));
    let e = decode_property_value_row(&id, &page, &prop, None, None, Some("x".to_owned()), None, T, T).unwrap_err();
    assert_eq!(column_of(e), ("date_value".to_owned(), "invalid date_value timestamp".to_owned()));
}

#[test]
fn decode_view_row_falls_back_to_table_name() {
    let id = ViewId::new().to_string();
    let db = DatabaseId::new().to_string();
    let v = decode_view_row(&id, &db, "   ".to_owned(), "kanban", vec![], vec![], None, vec!["a".to_owned(), "a".to_owned()], T, T).unwrap();
    assert_eq!(v.name().as_str(), "Table");
    assert_eq!(v.collapsed_groups().len(), 1);
    let v = decode_view_row(&id, &db, " Mine ".to_owned(), "table", vec![], vec![], None, vec![], T, T).unwrap();
    assert_eq!(v.name().as_str(), "Mine");
    let e = decode_view_row("v", &db, "x".to_owned(), "table", vec![], vec![], None, vec![], T, T).unwrap_err();
    assert_eq!(column_of(e), ("id".to_owned(), "invalid view id".to_owned()));
}
