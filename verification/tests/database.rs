use rustydatabasenotes::database::{Database, DatabaseError, DatabaseTitle};
use rustydatabasenotes::ids::DatabaseId;

#[test]
fn database_title_valid() {
    let title = DatabaseTitle::try_from("My Database".to_owned());
    assert!(title.is_ok());
    assert_eq!(title.as_ref().map(|t| t.as_str()), Ok("My Database"));
}

#[test]
fn database_title_empty_string_is_rejected() {
    let result = DatabaseTitle::try_from(String::new());
    assert!(matches!(result, Err(DatabaseError::TitleEmpty)));
}

#[test]
fn database_title_whitespace_only_is_rejected() {
    let result = DatabaseTitle::try_from("   \t\n  ".to_owned());
    assert!(matches!(result, Err(DatabaseError::TitleEmpty)));
}

#[test]
fn database_title_255_chars_is_accepted() {
    let s: String = "a".repeat(255);
    let result = DatabaseTitle::try_from(s);
    assert!(result.is_ok());
}

#[test]
fn database_title_256_chars_is_rejected() {
    let s: String = "a".repeat(256);
    let result = DatabaseTitle::try_from(s);
    assert!(matches!(result, Err(DatabaseError::TitleTooLong { len: 256, max: 255 })));
}

#[test]
fn database_title_trims_whitespace() {
    let title = DatabaseTitle::try_from("  hello  ".to_owned());
    assert!(title.is_ok());
    assert_eq!(title.as_ref().map(|t| t.as_str()), Ok("hello"));
}

#[test]
fn database_new_generates_valid_id_and_timestamps() {
    let title = DatabaseTitle::try_from("Test".to_owned());
    assert!(title.is_ok());
    let database = Database::new(title.expect("test title"));
    let id_str = database.id().to_string();
    assert_eq!(id_str.len(), 36);
    assert_eq!(database.created_at(), database.updated_at());
}

#[test]
fn database_id_display_and_from_str_roundtrip() {
    let id = DatabaseId::new();
    let s = id.to_string();
    let parsed = DatabaseId::from_str(&s).expect("should parse");
    assert_eq!(id, parsed);
}
