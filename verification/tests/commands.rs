use std::collections::HashMap;

use rustydatabasenotes::commands::{
    GroupConditionInput, SortConditionInput, ValueInputFields, check_page_in_database,
    check_page_standalone, check_property_count, parse_group_input, parse_sort_inputs,
    parse_value_input, validate_filter_conditions, validate_filter_operator, validate_filter_value,
    verify_properties_exist,
};
use rustydatabasenotes::ids::{DatabaseId, PageId, PropertyId};
use rustydatabasenotes::page::{Page, PageError, PageTitle};
use rustydatabasenotes::property::{
    Property, PropertyError, PropertyName, PropertyType, PropertyValueError, PropertyValueInput,
};
use rustydatabasenotes::time::Timestamp;
use rustydatabasenotes::view::{FilterCondition, FilterOperator, FilterValue, SortDirection, ViewError};

fn fields(kind: Option<&str>) -> ValueInputFields {
    ValueInputFields {
        kind_name: kind.map(|s| s.to_owned()),
        value_text: None,
        value_number: None,
        value_flag: None,
        option_id: None,
    }
}

#[test]
fn validate_filter_operator_checks_type() {
    assert!(validate_filter_operator(PropertyType::Text, FilterOperator::Contains).is_ok());
    assert!(validate_filter_operator(PropertyType::Number, FilterOperator::LessOrEqual).is_ok());
    assert!(validate_filter_operator(PropertyType::Date, FilterOperator::Before).is_ok());
    assert!(validate_filter_operator(PropertyType::Select, FilterOperator::IsNot).is_ok());
    assert!(validate_filter_operator(PropertyType::Checkbox, FilterOperator::IsChecked).is_ok());
    assert_eq!(
        validate_filter_operator(PropertyType::Checkbox, FilterOperator::IsEmpty),
        Err(ViewError::InvalidFilterOperator {
            operator: "isEmpty".to_owned(),
            property_type: "checkbox".to_owned()
        })
    );
    assert_eq!(
        validate_filter_operator(PropertyType::Text, FilterOperator::GreaterThan),
        Err(ViewError::InvalidFilterOperator {
            operator: "greaterThan".to_owned(),
            property_type: "text".to_owned()
        })
    );
}

#[test]
fn validate_filter_value_reasons() {
    assert!(validate_filter_value(PropertyType::Text, FilterOperator::IsEmpty, &None).is_ok());
    assert_eq!(
        validate_filter_value(
            PropertyType::Text,
            FilterOperator::IsEmpty,
            &Some(FilterValue::Text("x".to_owned()))
        ),
        Err(ViewError::InvalidFilterValue { reason: "operator 'isEmpty' must not have a value".to_owned() })
    );
    assert_eq!(
        validate_filter_value(PropertyType::Number, FilterOperator::Equals, &None),
        Err(ViewError::InvalidFilterValue { reason: "operator 'equals' requires a value".to_owned() })
    );
    assert_eq!(
        validate_filter_value(
            PropertyType::Date,
            FilterOperator::Before,
            &Some(FilterValue::Text("2024".to_owned()))
        ),
        Err(ViewError::InvalidFilterValue {
            reason: "value type does not match property type 'date'".to_owned()
        })
    );
    assert!(validate_filter_value(
        PropertyType::Select,
        FilterOperator::Is,
        &Some(FilterValue::SelectOption("o".to_owned()))
    )
    .is_ok());
}

#[test]
fn validate_filter_conditions_reports_first_failure() {
    let known = PropertyId::new();
    let unknown = PropertyId::new();
    let types = HashMap::from([(known.as_uuid(), PropertyType::Number)]);
    let good = FilterCondition {
        property_id: known,
        operator: FilterOperator::GreaterThan,
        value: Some(FilterValue::Number(1.0f64.to_bits())),
    };
    assert!(validate_filter_conditions(&[good.clone()], &types).is_ok());
    let missing = FilterCondition { property_id: unknown, operator: FilterOperator::IsEmpty, value: None };
    assert_eq!(
        validate_filter_conditions(&[good.clone(), missing], &types),
        Err(ViewError::PropertyNotFound { id: unknown })
    );
    let bad_op = FilterCondition { property_id: known, operator: FilterOperator::Contains, value: None };
    assert!(matches!(
        validate_filter_conditions(&[good, bad_op], &types),
        Err(ViewError::InvalidFilterOperator { .. })
    ));
}

#[test]
fn parse_sort_and_group_inputs() {
    let pid = PropertyId::new();
    let ok = parse_sort_inputs(&[SortConditionInput {
        property_id: pid.to_string(),
        direction: SortDirection::Descending,
    }])
    .unwrap();
    assert_eq!(ok[0].property_id, pid);
    assert_eq!(ok[0].direction, SortDirection::Descending);
    assert!(matches!(
        parse_sort_inputs(&[SortConditionInput { property_id: "bad".to_owned(), direction: SortDirection::Ascending }]),
        Err(ViewError::PropertyNotFound { .. })
    ));
    assert_eq!(parse_group_input(&GroupConditionInput { property_id: pid.to_string() }).unwrap().property_id, pid);
    assert!(parse_group_input(&GroupConditionInput { property_id: String::new() }).is_err());
}

#[test]
fn verify_properties_exist_names_first_missing() {
    let a = PropertyId::new();
    let b = PropertyId::new();
    let c = PropertyId::new();
    assert!(verify_properties_exist(&[a, b], &[b, a]).is_ok());
    assert_eq!(verify_properties_exist(&[a], &[a, c, b]), Err(ViewError::PropertyNotFound { id: c }));
}

#[test]
fn parse_value_input_by_kind() {
    let mut f = fields(Some("text"));
    f.value_text = Some("hi".to_owned());
    assert!(matches!(parse_value_input(&f, PropertyType::Text), Ok(PropertyValueInput::Text(s)) if s == "hi"));

    let mut f = fields(Some("number"));
    f.value_number = Some(2.5f64.to_bits());
    assert!(matches!(parse_value_input(&f, PropertyType::Number), Ok(PropertyValueInput::Number(n)) if n == 2.5f64.to_bits()));
    assert_eq!(
        parse_value_input(&fields(Some("number")), PropertyType::Number).err(),
        Some(PropertyValueError::InvalidNumber { reason: "missing or invalid number value".to_owned() })
    );

    let mut f = fields(Some("date"));
    f.value_text = Some("2024-03-01T12:00:00Z".to_owned());
    match parse_value_input(&f, PropertyType::Date) {
        Ok(PropertyValueInput::Date(t)) => assert_eq!(t.secs(), 1_709_294_400),
        other => panic!("unexpected: {other:?}"),
    }
    f.value_text = Some("not a date".to_owned());
    assert!(matches!(parse_value_input(&f, PropertyType::Date), Err(PropertyValueError::InvalidDate { .. })));
    assert_eq!(
        parse_value_input(&fields(Some("date")), PropertyType::Date).err(),
        Some(PropertyValueError::InvalidDate { reason: "missing date value".to_owned() })
    );

    let mut f = fields(Some("select"));
    f.option_id = Some("opt".to_owned());
    assert!(matches!(parse_value_input(&f, PropertyType::Select), Ok(PropertyValueInput::Select(s)) if s == "opt"));

    let mut f = fields(Some("checkbox"));
    f.value_flag = Some(true);
    assert!(matches!(parse_value_input(&f, PropertyType::Checkbox), Ok(PropertyValueInput::Checkbox(true))));
    assert!(matches!(
        parse_value_input(&fields(Some("checkbox")), PropertyType::Text),
        Err(PropertyValueError::TypeMismatch { expected: PropertyType::Checkbox, .. })
    ));
    assert!(matches!(
        parse_value_input(&fields(Some("colour")), PropertyType::Date),
        Err(PropertyValueError::TypeMismatch { expected: PropertyType::Date, .. })
    ));
    assert!(matches!(
        parse_value_input(&fields(None), PropertyType::Number),
        Err(PropertyValueError::TypeMismatch { expected: PropertyType::Number, .. })
    ));
}

#[test]
fn page_and_property_checks() {
    let db = DatabaseId::new();
    let prop = Property::new(db, PropertyName::try_from("P".to_owned()).unwrap(), PropertyType::Text, None, 0).unwrap();
    let now = Timestamp::now();
    let title = || PageTitle::try_from("Page".to_owned()).unwrap();
    let inside = Page::from_stored(PageId::new(), title(), Some(db), None, 0, now, now);
    let standalone = Page::new(title());
    assert!(check_page_in_database(&inside, &prop).is_ok());
    assert_eq!(
        check_page_in_database(&standalone, &prop),
        Err(PropertyValueError::PageNotInDatabase { page_id: *standalone.id(), database_id: db })
    );
    assert!(check_page_standalone(&standalone).is_ok());
    assert_eq!(
        check_page_standalone(&inside),
        Err(PageError::AlreadyInDatabase { page_id: *inside.id(), database_id: db })
    );
    assert!(check_property_count(49).is_ok());
    assert_eq!(check_property_count(50), Err(PropertyError::TooManyProperties { count: 50, max: 50 }));
}
