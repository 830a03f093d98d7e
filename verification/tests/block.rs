use rustydatabasenotes::block::{BlockContent, BlockError, BlockPosition};
use rustydatabasenotes::ids::BlockId;

#[test]
fn block_content_empty_string_accepted() {
    let content = BlockContent::try_from(String::new());
    assert!(content.is_ok());
    assert_eq!(content.unwrap().as_str(), "");
}

#[test]
fn block_content_10000_chars_accepted() {
    let s = "a".repeat(10_000);
    let content = BlockContent::try_from(s);
    assert!(content.is_ok());
}

#[test]
fn block_content_10001_chars_rejected() {
    let s = "a".repeat(10_001);
    let result = BlockContent::try_from(s);
    assert!(matches!(
        result,
        Err(BlockError::ContentTooLong { len: 10_001, max: 10_000 })
    ));
}

#[test]
fn block_position_zero_accepted() {
    let pos = BlockPosition::try_from(0_i64);
    assert!(pos.is_ok());
    assert_eq!(pos.unwrap().value(), 0);
}

#[test]
fn block_position_positive_accepted() {
    let pos = BlockPosition::try_from(42_i64);
    assert!(pos.is_ok());
    assert_eq!(pos.unwrap().value(), 42);
}

#[test]
fn block_position_negative_rejected() {
    let result = BlockPosition::try_from(-1_i64);
    assert!(matches!(result, Err(BlockError::InvalidPosition { value: -1 })));
}

#[test]
fn block_content_multibyte_emoji_counted_correctly() {
    let emoji_10000 = "\u{1F600}".repeat(10_000);
    let result = BlockContent::try_from(emoji_10000);
    assert!(result.is_ok());
}

#[test]
fn block_content_multibyte_emoji_10001_rejected() {
    let emoji_10001 = "\u{1F600}".repeat(10_001);
    let result = BlockContent::try_from(emoji_10001);
    assert!(matches!(
        result,
        Err(BlockError::ContentTooLong { len: 10_001, max: 10_000 })
    ));
}

#[test]
fn block_content_mixed_bmp_and_supplementary() {
    let mixed = format!(
        "{}{}{}",
        "a".repeat(5_000),
        "\u{4e00}".repeat(3_000),
        "\u{1F600}".repeat(2_000)
    );
    assert_eq!(mixed.chars().count(), 10_000);
    let result = BlockContent::try_from(mixed);
    assert!(result.is_ok());
}

#[test]
fn block_id_display_and_from_str_roundtrip() {
    let id = BlockId::new();
    let s = id.to_string();
    let parsed = BlockId::from_str(&s).expect("should parse");
    assert_eq!(id, parsed);
}

#[test]
fn block_id_text_is_hyphenated_lowercase() {
    let id = BlockId::from_uuid(0x0123_4567_89ab_cdef_0123_4567_89ab_cdef);
    assert_eq!(id.to_string(), "01234567-89ab-cdef-0123-456789abcdef");
    assert!(BlockId::from_str("not-a-uuid").is_err());
}

#[test]
fn block_id_new_is_version_7() {
    let id = BlockId::new();
    assert_eq!((id.as_uuid() >> 76) & 0xf, 7);
}

#[test]
fn block_error_messages() {
    assert_eq!(
        BlockError::ContentTooLong { len: 10_001, max: 10_000 }.to_string(),
        "block content too long: 10001 characters (max: 10000)"
    );
    assert_eq!(BlockError::InvalidPosition { value: -7 }.to_string(), "invalid block position: -7");
    assert_eq!(BlockError::NotFound { id: "b1".to_owned() }.to_string(), "block not found: b1");
    assert_eq!(
        BlockError::CannotMoveUp { id: "b1".to_owned() }.to_string(),
        "cannot move block up: b1 is at the top"
    );
    assert_eq!(
        BlockError::CannotMoveDown { id: "b2".to_owned() }.to_string(),
        "cannot move block down: b2 is at the bottom"
    );
}
