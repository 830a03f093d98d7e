use std::collections::HashMap;

use chrono::{DateTime, Utc};
use rustydatabasenotes::filter::apply_filters;
use rustydatabasenotes::ids::PropertyId;
use rustydatabasenotes::property::PropertyType;
use rustydatabasenotes::sort::RowPropertyValue;
use rustydatabasenotes::time::Timestamp;
use rustydatabasenotes::view::{FilterCondition, FilterOperator, FilterValue};

fn make_text(text: Option<&str>) -> RowPropertyValue {
    RowPropertyValue {
        text_value: text.map(|s| s.to_owned()),
        number_value: None,
        number_text: None,
        date_value: None,
        boolean_value: None,
    }
}

fn make_number(num: Option<f64>) -> RowPropertyValue {
    RowPropertyValue {
        text_value: None,
        number_value: num.map(f64::to_bits),
        number_text: num.map(|n| format!("{n}")),
        date_value: None,
        boolean_value: None,
    }
}

fn make_date(date: Option<DateTime<Utc>>) -> RowPropertyValue {
    let date = date.map(|d| Timestamp::from_parts(d.timestamp(), d.timestamp_subsec_nanos()).expect("representable"));
    RowPropertyValue {
        text_value: None,
        number_value: None,
        number_text: None,
        date_value: date,
        boolean_value: None,
    }
}

fn make_checkbox(val: Option<bool>) -> RowPropertyValue {
    RowPropertyValue {
        text_value: None,
        number_value: None,
        number_text: None,
        date_value: None,
        boolean_value: val,
    }
}

fn make_select(option_id: Option<&str>) -> RowPropertyValue {
    RowPropertyValue {
        text_value: option_id.map(|s| s.to_owned()),
        number_value: None,
        number_text: None,
        date_value: None,
        boolean_value: None,
    }
}


#[test]
fn filter_text_equals_case_insensitive() {
    let pid = PropertyId::new();
    let pids = pid.as_uuid();
    let rows = vec![
        HashMap::from([(pids, make_text(Some("Hello")))]),
        HashMap::from([(pids, make_text(Some("hello")))]),
        HashMap::from([(pids, make_text(Some("World")))]),
    ];
    let conditions = vec![FilterCondition {
        property_id: pid,
        operator: FilterOperator::Equals,
        value: Some(FilterValue::Text("HELLO".to_owned())),
    }];
    let types = HashMap::from([(pids, PropertyType::Text)]);
    let result = apply_filters(&rows, &conditions, &types);
    assert_eq!(result, vec![0, 1]);
}

#[test]
fn filter_text_not_equals() {
    let pid = PropertyId::new();
    let pids = pid.as_uuid();
    let rows = vec![
        HashMap::from([(pids, make_text(Some("Hello")))]),
        HashMap::from([(pids, make_text(Some("World")))]),
    ];
    let conditions = vec![FilterCondition {
        property_id: pid,
        operator: FilterOperator::NotEquals,
        value: Some(FilterValue::Text("Hello".to_owned())),
    }];
    let types = HashMap::from([(pids, PropertyType::Text)]);
    let result = apply_filters(&rows, &conditions, &types);
    assert_eq!(result, vec![1]);
}

#[test]
fn filter_text_contains_case_insensitive() {
    let pid = PropertyId::new();
    let pids = pid.as_uuid();
    let rows = vec![
        HashMap::from([(pids, make_text(Some("Hello World")))]),
        HashMap::from([(pids, make_text(Some("Goodbye")))]),
    ];
    let conditions = vec![FilterCondition {
        property_id: pid,
        operator: FilterOperator::Contains,
        value: Some(FilterValue::Text("hello".to_owned())),
    }];
    let types = HashMap::from([(pids, PropertyType::Text)]);
    let result = apply_filters(&rows, &conditions, &types);
    assert_eq!(result, vec![0]);
}

#[test]
fn filter_text_not_contains() {
    let pid = PropertyId::new();
    let pids = pid.as_uuid();
    let rows = vec![
        HashMap::from([(pids, make_text(Some("Hello World")))]),
        HashMap::from([(pids, make_text(Some("Goodbye")))]),
    ];
    let conditions = vec![FilterCondition {
        property_id: pid,
        operator: FilterOperator::NotContains,
        value: Some(FilterValue::Text("hello".to_owned())),
    }];
    let types = HashMap::from([(pids, PropertyType::Text)]);
    let result = apply_filters(&rows, &conditions, &types);
    assert_eq!(result, vec![1]);
}


#[test]
fn filter_number_equals() {
    let pid = PropertyId::new();
    let pids = pid.as_uuid();
    let rows = vec![
        HashMap::from([(pids, make_number(Some(42.0)))]),
        HashMap::from([(pids, make_number(Some(10.0)))]),
    ];
    let conditions = vec![FilterCondition {
        property_id: pid,
        operator: FilterOperator::Equals,
        value: Some(FilterValue::Number(42.0f64.to_bits())),
    }];
    let types = HashMap::from([(pids, PropertyType::Number)]);
    let result = apply_filters(&rows, &conditions, &types);
    assert_eq!(result, vec![0]);
}

#[test]
fn filter_number_greater_than() {
    let pid = PropertyId::new();
    let pids = pid.as_uuid();
    let rows = vec![
        HashMap::from([(pids, make_number(Some(10.0)))]),
        HashMap::from([(pids, make_number(Some(20.0)))]),
        HashMap::from([(pids, make_number(Some(30.0)))]),
    ];
    let conditions = vec![FilterCondition {
        property_id: pid,
        operator: FilterOperator::GreaterThan,
        value: Some(FilterValue::Number(15.0f64.to_bits())),
    }];
    let types = HashMap::from([(pids, PropertyType::Number)]);
    let result = apply_filters(&rows, &conditions, &types);
    assert_eq!(result, vec![1, 2]);
}

#[test]
fn filter_number_less_or_equal() {
    let pid = PropertyId::new();
    let pids = pid.as_uuid();
    let rows = vec![
        HashMap::from([(pids, make_number(Some(10.0)))]),
        HashMap::from([(pids, make_number(Some(20.0)))]),
        HashMap::from([(pids, make_number(Some(30.0)))]),
    ];
    let conditions = vec![FilterCondition {
        property_id: pid,
        operator: FilterOperator::LessOrEqual,
        value: Some(FilterValue::Number(20.0f64.to_bits())),
    }];
    let types = HashMap::from([(pids, PropertyType::Number)]);
    let result = apply_filters(&rows, &conditions, &types);
    assert_eq!(result, vec![0, 1]);
}


#[test]
fn filter_date_before_exclusive() {
    let pid = PropertyId::new();
    let pids = pid.as_uuid();
    let d1: DateTime<Utc> = "2024-01-15T12:00:00Z".parse().expect("valid");
    let d2: DateTime<Utc> = "2024-06-15T12:00:00Z".parse().expect("valid");
    let rows = vec![
        HashMap::from([(pids, make_date(Some(d1)))]),
        HashMap::from([(pids, make_date(Some(d2)))]),
    ];
    let conditions = vec![FilterCondition {
        property_id: pid,
        operator: FilterOperator::Before,
        value: Some(FilterValue::Date("2024-03-01T00:00:00Z".to_owned())),
    }];
    let types = HashMap::from([(pids, PropertyType::Date)]);
    let result = apply_filters(&rows, &conditions, &types);
    assert_eq!(result, vec![0]);
}

#[test]
fn filter_date_after_inclusive() {
    let pid = PropertyId::new();
    let pids = pid.as_uuid();
    let d1: DateTime<Utc> = "2024-03-01T00:00:00Z".parse().expect("valid");
    let d2: DateTime<Utc> = "2024-06-15T12:00:00Z".parse().expect("valid");
    let rows = vec![
        HashMap::from([(pids, make_date(Some(d1)))]),
        HashMap::from([(pids, make_date(Some(d2)))]),
    ];
    let conditions = vec![FilterCondition {
        property_id: pid,
        operator: FilterOperator::After,
        value: Some(FilterValue::Date("2024-03-01T00:00:00Z".to_owned())),
    }];
    let types = HashMap::from([(pids, PropertyType::Date)]);
    let result = apply_filters(&rows, &conditions, &types);
    // Both d1 (==) and d2 (>) match (After is inclusive)
    assert_eq!(result, vec![0, 1]);
}

#[test]
fn filter_date_equals_minute_granularity() {
    let pid = PropertyId::new();
    let pids = pid.as_uuid();
    let d1: DateTime<Utc> = "2024-03-01T12:30:00Z".parse().expect("valid");
    let d2: DateTime<Utc> = "2024-03-01T12:30:45Z".parse().expect("valid");
    let d3: DateTime<Utc> = "2024-03-01T12:31:00Z".parse().expect("valid");
    let rows = vec![
        HashMap::from([(pids, make_date(Some(d1)))]),
        HashMap::from([(pids, make_date(Some(d2)))]),
        HashMap::from([(pids, make_date(Some(d3)))]),
    ];
    let conditions = vec![FilterCondition {
        property_id: pid,
        operator: FilterOperator::Equals,
        value: Some(FilterValue::Date("2024-03-01T12:30:00Z".to_owned())),
    }];
    let types = HashMap::from([(pids, PropertyType::Date)]);
    let result = apply_filters(&rows, &conditions, &types);
    // d1 and d2 match (same minute), d3 doesn't
    assert_eq!(result, vec![0, 1]);
}


#[test]
fn filter_select_is() {
    let pid = PropertyId::new();
    let pids = pid.as_uuid();
    let rows = vec![
        HashMap::from([(pids, make_select(Some("opt-a")))]),
        HashMap::from([(pids, make_select(Some("opt-b")))]),
        HashMap::from([(pids, make_select(None))]),
    ];
    let conditions = vec![FilterCondition {
        property_id: pid,
        operator: FilterOperator::Is,
        value: Some(FilterValue::SelectOption("opt-a".to_owned())),
    }];
    let types = HashMap::from([(pids, PropertyType::Select)]);
    let result = apply_filters(&rows, &conditions, &types);
    assert_eq!(result, vec![0]);
}

#[test]
fn filter_select_is_not_includes_null() {
    let pid = PropertyId::new();
    let pids = pid.as_uuid();
    let rows = vec![
        HashMap::from([(pids, make_select(Some("opt-a")))]),
        HashMap::from([(pids, make_select(Some("opt-b")))]),
        HashMap::from([(pids, make_select(None))]),
    ];
    let conditions = vec![FilterCondition {
        property_id: pid,
        operator: FilterOperator::IsNot,
        value: Some(FilterValue::SelectOption("opt-a".to_owned())),
    }];
    let types = HashMap::from([(pids, PropertyType::Select)]);
    let result = apply_filters(&rows, &conditions, &types);
    // opt-b and null match IsNot
    assert_eq!(result, vec![1, 2]);
}


#[test]
fn filter_checkbox_is_checked() {
    let pid = PropertyId::new();
    let pids = pid.as_uuid();
    let rows = vec![
        HashMap::from([(pids, make_checkbox(Some(true)))]),
        HashMap::from([(pids, make_checkbox(Some(false)))]),
        HashMap::from([(pids, make_checkbox(None))]),
    ];
    let conditions = vec![FilterCondition {
        property_id: pid,
        operator: FilterOperator::IsChecked,
        value: None,
    }];
    let types = HashMap::from([(pids, PropertyType::Checkbox)]);
    let result = apply_filters(&rows, &conditions, &types);
    assert_eq!(result, vec![0]);
}

#[test]
fn filter_checkbox_is_unchecked() {
    let pid = PropertyId::new();
    let pids = pid.as_uuid();
    let rows = vec![
        HashMap::from([(pids, make_checkbox(Some(true)))]),
        HashMap::from([(pids, make_checkbox(Some(false)))]),
        HashMap::from([(pids, make_checkbox(None))]),
    ];
    let conditions = vec![FilterCondition {
        property_id: pid,
        operator: FilterOperator::IsUnchecked,
        value: None,
    }];
    let types = HashMap::from([(pids, PropertyType::Checkbox)]);
    let result = apply_filters(&rows, &conditions, &types);
    assert_eq!(result, vec![1, 2]);
}


#[test]
fn filter_is_empty_null_only() {
    let pid = PropertyId::new();
    let pids = pid.as_uuid();
    let rows = vec![
        HashMap::from([(pids, make_number(Some(0.0)))]),
        HashMap::from([(pids, make_number(None))]),
        HashMap::from([(pids, make_number(Some(42.0)))]),
    ];
    let conditions = vec![FilterCondition {
        property_id: pid,
        operator: FilterOperator::IsEmpty,
        value: None,
    }];
    let types = HashMap::from([(pids, PropertyType::Number)]);
    let result = apply_filters(&rows, &conditions, &types);
    // Only null is empty, not zero
    assert_eq!(result, vec![1]);
}

#[test]
fn filter_is_not_empty() {
    let pid = PropertyId::new();
    let pids = pid.as_uuid();
    let rows = vec![
        HashMap::from([(pids, make_text(Some("hello")))]),
        HashMap::from([(pids, make_text(None))]),
    ];
    let conditions = vec![FilterCondition {
        property_id: pid,
        operator: FilterOperator::IsNotEmpty,
        value: None,
    }];
    let types = HashMap::from([(pids, PropertyType::Text)]);
    let result = apply_filters(&rows, &conditions, &types);
    assert_eq!(result, vec![0]);
}


#[test]
fn filter_multiple_conditions_and() {
    let p1 = PropertyId::new();
    let p1s = p1.as_uuid();
    let p2 = PropertyId::new();
    let p2s = p2.as_uuid();

    let rows = vec![
        HashMap::from([
            (p1s, make_text(Some("Alice"))),
            (p2s, make_number(Some(25.0))),
        ]),
        HashMap::from([
            (p1s, make_text(Some("Bob"))),
            (p2s, make_number(Some(30.0))),
        ]),
        HashMap::from([
            (p1s, make_text(Some("Alice"))),
            (p2s, make_number(Some(35.0))),
        ]),
    ];

    let conditions = vec![
        FilterCondition {
            property_id: p1,
            operator: FilterOperator::Equals,
            value: Some(FilterValue::Text("Alice".to_owned())),
        },
        FilterCondition {
            property_id: p2,
            operator: FilterOperator::GreaterThan,
            value: Some(FilterValue::Number(30.0f64.to_bits())),
        },
    ];

    let types = HashMap::from([(p1s, PropertyType::Text), (p2s, PropertyType::Number)]);

    let result = apply_filters(&rows, &conditions, &types);
    // Only Alice with age > 30
    assert_eq!(result, vec![2]);
}

#[test]
fn filter_empty_conditions_returns_all() {
    let rows = vec![HashMap::new(), HashMap::new()];
    let result = apply_filters(&rows, &[], &HashMap::new());
    assert_eq!(result, vec![0, 1]);
}

#[test]
fn filter_null_row_doesnt_match_text_condition() {
    let pid = PropertyId::new();
    let pids = pid.as_uuid();
    let rows = vec![
        HashMap::from([(pids, make_text(None))]),
        HashMap::from([(pids, make_text(Some("hello")))]),
    ];
    let conditions = vec![FilterCondition {
        property_id: pid,
        operator: FilterOperator::Contains,
        value: Some(FilterValue::Text("hel".to_owned())),
    }];
    let types = HashMap::from([(pids, PropertyType::Text)]);
    let result = apply_filters(&rows, &conditions, &types);
    assert_eq!(result, vec![1]);
}

#[test]
fn filter_select_is_matches_by_option_id_not_display_value() {
    let pid = PropertyId::new();
    let pids = pid.as_uuid();
    let option_uuid = "550e8400-e29b-41d4-a716-446655440000";
    let rows = vec![HashMap::from([(
        pids.clone(),
        make_select(Some(option_uuid)),
    )])];
    let types = HashMap::from([(pids, PropertyType::Select)]);

    // option ID で検索 → マッチ
    let cond_by_id = vec![FilterCondition {
        property_id: pid,
        operator: FilterOperator::Is,
        value: Some(FilterValue::SelectOption(option_uuid.to_owned())),
    }];
    assert_eq!(apply_filters(&rows, &cond_by_id, &types), vec![0]);

    // 表示値で検索 → 不一致（フロントは UUID を送る必要がある）
    let cond_by_display = vec![FilterCondition {
        property_id: pid,
        operator: FilterOperator::Is,
        value: Some(FilterValue::SelectOption("1".to_owned())),
    }];
    let empty: Vec<usize> = vec![];
    assert_eq!(apply_filters(&rows, &cond_by_display, &types), empty);
}

fn one(pid: PropertyId, v: RowPropertyValue) -> HashMap<u128, RowPropertyValue> {
    HashMap::from([(pid.as_uuid(), v)])
}

#[test]
fn filter_date_only_value_is_midnight_utc() {
    let pid = PropertyId::new();
    let d1: DateTime<Utc> = "2024-02-29T23:59:59Z".parse().expect("valid");
    let d2: DateTime<Utc> = "2024-03-01T00:00:00Z".parse().expect("valid");
    let rows = vec![one(pid, make_date(Some(d1))), one(pid, make_date(Some(d2)))];
    let types = HashMap::from([(pid.as_uuid(), PropertyType::Date)]);
    let before = vec![FilterCondition {
        property_id: pid,
        operator: FilterOperator::Before,
        value: Some(FilterValue::Date("2024-03-01".to_owned())),
    }];
    assert_eq!(apply_filters(&rows, &before, &types), vec![0]);
    let after = vec![FilterCondition {
        property_id: pid,
        operator: FilterOperator::After,
        value: Some(FilterValue::Date("2024-03-01".to_owned())),
    }];
    assert_eq!(apply_filters(&rows, &after, &types), vec![1]);
}

#[test]
fn filter_unparseable_date_matches_nothing() {
    let pid = PropertyId::new();
    let d: DateTime<Utc> = "2024-01-01T00:00:00Z".parse().expect("valid");
    let rows = vec![one(pid, make_date(Some(d)))];
    let types = HashMap::from([(pid.as_uuid(), PropertyType::Date)]);
    let conds = vec![FilterCondition {
        property_id: pid,
        operator: FilterOperator::After,
        value: Some(FilterValue::Date("yesterday".to_owned())),
    }];
    assert!(apply_filters(&rows, &conds, &types).is_empty());
}

#[test]
fn filter_number_nan_equals_nothing() {
    let pid = PropertyId::new();
    let rows = vec![one(pid, make_number(Some(f64::NAN))), one(pid, make_number(Some(1.0)))];
    let types = HashMap::from([(pid.as_uuid(), PropertyType::Number)]);
    let eq = vec![FilterCondition {
        property_id: pid,
        operator: FilterOperator::Equals,
        value: Some(FilterValue::Number(f64::NAN.to_bits())),
    }];
    assert!(apply_filters(&rows, &eq, &types).is_empty());
    let ne = vec![FilterCondition {
        property_id: pid,
        operator: FilterOperator::NotEquals,
        value: Some(FilterValue::Number(1.0f64.to_bits())),
    }];
    assert_eq!(apply_filters(&rows, &ne, &types), vec![0]);
}

#[test]
fn filter_number_zero_equals_negative_zero() {
    let pid = PropertyId::new();
    let rows = vec![one(pid, make_number(Some(-0.0))), one(pid, make_number(Some(0.5)))];
    let types = HashMap::from([(pid.as_uuid(), PropertyType::Number)]);
    let conds = vec![FilterCondition {
        property_id: pid,
        operator: FilterOperator::GreaterOrEqual,
        value: Some(FilterValue::Number(0.0f64.to_bits())),
    }];
    assert_eq!(apply_filters(&rows, &conds, &types), vec![0, 1]);
}

#[test]
fn filter_text_contains_empty_needle_matches_all_text() {
    let pid = PropertyId::new();
    let rows = vec![one(pid, make_text(Some("abc"))), one(pid, make_text(None))];
    let types = HashMap::from([(pid.as_uuid(), PropertyType::Text)]);
    let conds = vec![FilterCondition {
        property_id: pid,
        operator: FilterOperator::Contains,
        value: Some(FilterValue::Text(String::new())),
    }];
    assert_eq!(apply_filters(&rows, &conds, &types), vec![0]);
}

#[test]
fn filter_unknown_property_type_keeps_rows_for_comparisons() {
    let pid = PropertyId::new();
    let rows = vec![one(pid, make_text(Some("x"))), HashMap::new()];
    let conds = vec![FilterCondition {
        property_id: pid,
        operator: FilterOperator::Equals,
        value: Some(FilterValue::Text("y".to_owned())),
    }];
    assert_eq!(apply_filters(&rows, &conds, &HashMap::new()), vec![0, 1]);
    let empty = vec![FilterCondition { property_id: pid, operator: FilterOperator::IsEmpty, value: None }];
    assert_eq!(apply_filters(&rows, &empty, &HashMap::new()), vec![0, 1]);
}

#[test]
fn filter_wrong_value_kind_matches_nothing() {
    let pid = PropertyId::new();
    let rows = vec![one(pid, make_text(Some("5")))];
    let types = HashMap::from([(pid.as_uuid(), PropertyType::Text)]);
    let conds = vec![FilterCondition {
        property_id: pid,
        operator: FilterOperator::Equals,
        value: Some(FilterValue::Number(5.0f64.to_bits())),
    }];
    assert!(apply_filters(&rows, &conds, &types).is_empty());
}
