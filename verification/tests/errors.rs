use rustydatabasenotes::block::BlockError;
use rustydatabasenotes::database::DatabaseError;
use rustydatabasenotes::errors::{
    block_kind, database_kind, page_kind, property_kind, property_value_kind, view_kind,
};
use rustydatabasenotes::ids::{DatabaseId, PageId, PropertyId};
use rustydatabasenotes::page::PageError;
use rustydatabasenotes::property::{PropertyError, PropertyType, PropertyValueError};
use rustydatabasenotes::view::ViewError;

#[test]
fn error_kinds_match_frontend_names() {
    assert_eq!(page_kind(&PageError::TitleEmpty), "titleEmpty");
    assert_eq!(database_kind(&DatabaseError::TitleEmpty), "titleEmpty");
    assert_eq!(database_kind(&DatabaseError::NotFound { id: DatabaseId::new() }), "databaseNotFound");
    assert_eq!(block_kind(&BlockError::CannotMoveUp { id: String::new() }), "cannotMoveUp");
    assert_eq!(property_kind(&PropertyError::InvalidType { value: String::new() }), "invalidConfig");
    assert_eq!(property_kind(&PropertyError::OptionValueEmpty), "optionValueEmpty");
    assert_eq!(
        property_value_kind(&PropertyValueError::InvalidNumber { reason: String::new() }),
        "invalidNumber"
    );
    assert_eq!(view_kind(&ViewError::NoGroupCondition), "noGroupCondition");
    assert_eq!(view_kind(&ViewError::PropertyNotFound { id: PropertyId::new() }), "propertyNotFound");
}

#[test]
fn page_error_messages() {
    let id = PageId::from_uuid(0x0190_0000_0000_7000_8000_0000_0000_0001);
    let db = DatabaseId::from_uuid(0x0190_0000_0000_7000_8000_0000_0000_0002);
    assert_eq!(PageError::TitleEmpty.to_string(), "page title must not be empty");
    assert_eq!(
        PageError::TitleTooLong { len: 256, max: 255 }.to_string(),
        "page title too long: 256 characters (max 255)"
    );
    assert_eq!(
        PageError::NotFound { id: id.clone() }.to_string(),
        "page not found: 01900000-0000-7000-8000-000000000001"
    );
    assert_eq!(
        PageError::AlreadyInDatabase { page_id: id, database_id: db }.to_string(),
        "page 01900000-0000-7000-8000-000000000001 already in database 01900000-0000-7000-8000-000000000002"
    );
    assert_eq!(
        PageError::CircularReference { page_id: "a".to_owned(), target_parent_id: "b".to_owned() }
            .to_string(),
        "circular reference detected: page a cannot be moved under b"
    );
    assert_eq!(
        PageError::MaxDepthExceeded { page_id: "a".to_owned(), current_depth: 7, max_depth: 5 }.to_string(),
        "maximum nesting depth (5) exceeded for page a"
    );
    assert_eq!(
        PageError::DatabasePageCannotNest { page_id: "a".to_owned() }.to_string(),
        "database page a cannot participate in page hierarchy"
    );
}

#[test]
fn database_error_messages() {
    let db = DatabaseId::from_uuid(0x0190_0000_0000_7000_8000_0000_0000_0002);
    assert_eq!(DatabaseError::TitleEmpty.to_string(), "database title must not be empty");
    assert_eq!(
        DatabaseError::TitleTooLong { len: 300, max: 255 }.to_string(),
        "database title too long: 300 characters (max 255)"
    );
    assert_eq!(
        DatabaseError::NotFound { id: db }.to_string(),
        "database not found: 01900000-0000-7000-8000-000000000002"
    );
}

#[test]
fn property_error_messages() {
    let db = DatabaseId::from_uuid(0x0190_0000_0000_7000_8000_0000_0000_0002);
    let pid = PropertyId::from_uuid(0x0190_0000_0000_7000_8000_0000_0000_0003);
    assert_eq!(PropertyError::NameEmpty.to_string(), "property name must not be empty");
    assert_eq!(
        PropertyError::NameTooLong { len: 101, max: 100 }.to_string(),
        "property name too long: 101 characters (max 100)"
    );
    assert_eq!(
        PropertyError::DuplicateName { name: "Status".to_owned(), database_id: db }.to_string(),
        "duplicate property name 'Status' in database 01900000-0000-7000-8000-000000000002"
    );
    assert_eq!(
        PropertyError::InvalidType { value: "url".to_owned() }.to_string(),
        "invalid property type: url"
    );
    assert_eq!(
        PropertyError::TooManyProperties { count: 51, max: 50 }.to_string(),
        "too many properties: 51 (max 50)"
    );
    assert_eq!(
        PropertyError::NotFound { id: pid }.to_string(),
        "property not found: 01900000-0000-7000-8000-000000000003"
    );
    assert_eq!(
        PropertyError::InvalidConfig { reason: "x".to_owned() }.to_string(),
        "invalid property config: x"
    );
    assert_eq!(
        PropertyError::TooManyOptions { count: 101, max: 100 }.to_string(),
        "too many select options: 101 (max 100)"
    );
    assert_eq!(PropertyError::OptionValueEmpty.to_string(), "select option value must not be empty");
    assert_eq!(
        PropertyError::DuplicateOptionValue { value: "Done".to_owned() }.to_string(),
        "duplicate select option value: Done"
    );
}

#[test]
fn property_value_error_messages() {
    let db = DatabaseId::from_uuid(0x0190_0000_0000_7000_8000_0000_0000_0002);
    let pid = PropertyId::from_uuid(0x0190_0000_0000_7000_8000_0000_0000_0003);
    let page = PageId::from_uuid(0x0190_0000_0000_7000_8000_0000_0000_0001);
    assert_eq!(
        PropertyValueError::InvalidNumber { reason: "NaN".to_owned() }.to_string(),
        "invalid number: NaN"
    );
    assert_eq!(
        PropertyValueError::InvalidDate { reason: "bad".to_owned() }.to_string(),
        "invalid date: bad"
    );
    assert_eq!(
        PropertyValueError::InvalidSelectOption { option_id: "o1".to_owned(), property_id: pid.clone() }
            .to_string(),
        "invalid select option 'o1' for property 01900000-0000-7000-8000-000000000003"
    );
    assert_eq!(
        PropertyValueError::TypeMismatch { expected: PropertyType::Number, property_id: pid }.to_string(),
        "type mismatch: expected number for property 01900000-0000-7000-8000-000000000003"
    );
    assert_eq!(
        PropertyValueError::PageNotInDatabase { page_id: page, database_id: db }.to_string(),
        "page 01900000-0000-7000-8000-000000000001 not in database 01900000-0000-7000-8000-000000000002"
    );
}

#[test]
fn view_error_messages() {
    let pid = PropertyId::from_uuid(0x0190_0000_0000_7000_8000_0000_0000_0003);
    assert_eq!(
        ViewError::InvalidSortCondition { reason: "r".to_owned() }.to_string(),
        "invalid sort condition: r"
    );
    assert_eq!(
        ViewError::TooManySortConditions { count: 6, max: 5 }.to_string(),
        "too many sort conditions: 6 (max 5)"
    );
    assert_eq!(
        ViewError::InvalidFilterOperator { operator: "before".to_owned(), property_type: "text".to_owned() }
            .to_string(),
        "invalid filter operator 'before' for property type 'text'"
    );
    assert_eq!(
        ViewError::InvalidFilterValue { reason: "r".to_owned() }.to_string(),
        "invalid filter value: r"
    );
    assert_eq!(
        ViewError::TooManyFilterConditions { count: 21, max: 20 }.to_string(),
        "too many filter conditions: 21 (max 20)"
    );
    assert_eq!(
        ViewError::PropertyNotFound { id: pid.clone() }.to_string(),
        "property not found: 01900000-0000-7000-8000-000000000003"
    );
    assert_eq!(ViewError::NoGroupCondition.to_string(), "no group condition is set for the view");
    assert_eq!(
        ViewError::DuplicateSortProperty { id: pid }.to_string(),
        "duplicate sort property: 01900000-0000-7000-8000-000000000003"
    );
}

#[test]
fn negative_position_message_has_sign() {
    assert_eq!(
        BlockError::InvalidPosition { value: i64::MIN }.to_string(),
        "invalid block position: -9223372036854775808"
    );
    assert_eq!(BlockError::InvalidPosition { value: -1 }.to_string(), "invalid block position: -1");
}
