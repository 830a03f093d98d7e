use std::collections::HashMap;

use chrono::{DateTime, Utc};
use rustydatabasenotes::ids::{PropertyId, SelectOptionId};
use rustydatabasenotes::property::{DateMode, PropertyConfig, PropertyType, SelectOption};
use rustydatabasenotes::sort::{RowPropertyValue, SortPropertyInfo, compute_sort_order};
use rustydatabasenotes::time::Timestamp;
use rustydatabasenotes::view::{SortCondition, SortDirection};

fn make_text_value(text: Option<&str>) -> RowPropertyValue {
    RowPropertyValue {
        text_value: text.map(|s| s.to_owned()),
        number_value: None,
        number_text: None,
        date_value: None,
        boolean_value: None,
    }
}

fn make_number_value(num: Option<f64>) -> RowPropertyValue {
    RowPropertyValue {
        text_value: None,
        number_value: num.map(f64::to_bits),
        number_text: num.map(|n| format!("{n}")),
        date_value: None,
        boolean_value: None,
    }
}

fn make_date_value(date: Option<DateTime<Utc>>) -> RowPropertyValue {
    let date = date.map(|d| Timestamp::from_parts(d.timestamp(), d.timestamp_subsec_nanos()).expect("representable"));
    RowPropertyValue {
        text_value: None,
        number_value: None,
        number_text: None,
        date_value: date,
        boolean_value: None,
    }
}

fn make_checkbox_value(val: Option<bool>) -> RowPropertyValue {
    RowPropertyValue {
        text_value: None,
        number_value: None,
        number_text: None,
        date_value: None,
        boolean_value: val,
    }
}

fn make_select_value(option_id: Option<&str>) -> RowPropertyValue {
    RowPropertyValue {
        text_value: option_id.map(|s| s.to_owned()),
        number_value: None,
        number_text: None,
        date_value: None,
        boolean_value: None,
    }
}


#[test]
fn sort_text_ascending_unicode_order() {
    let prop_id = PropertyId::new();
    let prop_id_str = prop_id.as_uuid();

    let rows = vec![
        HashMap::from([(prop_id_str, make_text_value(Some("Charlie")))]),
        HashMap::from([(prop_id_str, make_text_value(Some("Alpha")))]),
        HashMap::from([(prop_id_str, make_text_value(Some("Bravo")))]),
    ];

    let conditions = vec![SortCondition {
        property_id: prop_id,
        direction: SortDirection::Ascending,
    }];
    let info = HashMap::from([(
        prop_id_str,
        SortPropertyInfo {
            property_type: PropertyType::Text,
            config: None,
        },
    )]);

    let order = compute_sort_order(&rows, &conditions, &info);
    assert_eq!(order, vec![1, 2, 0]); // Alpha, Bravo, Charlie
}

#[test]
fn sort_text_descending() {
    let prop_id = PropertyId::new();
    let prop_id_str = prop_id.as_uuid();

    let rows = vec![
        HashMap::from([(prop_id_str, make_text_value(Some("Alpha")))]),
        HashMap::from([(prop_id_str, make_text_value(Some("Charlie")))]),
        HashMap::from([(prop_id_str, make_text_value(Some("Bravo")))]),
    ];

    let conditions = vec![SortCondition {
        property_id: prop_id,
        direction: SortDirection::Descending,
    }];
    let info = HashMap::from([(
        prop_id_str,
        SortPropertyInfo {
            property_type: PropertyType::Text,
            config: None,
        },
    )]);

    let order = compute_sort_order(&rows, &conditions, &info);
    assert_eq!(order, vec![1, 2, 0]); // Charlie, Bravo, Alpha
}


#[test]
fn sort_number_ascending_f64_total_cmp() {
    let prop_id = PropertyId::new();
    let prop_id_str = prop_id.as_uuid();

    let rows = vec![
        HashMap::from([(prop_id_str, make_number_value(Some(30.0)))]),
        HashMap::from([(prop_id_str, make_number_value(Some(1.0)))]),
        HashMap::from([(prop_id_str, make_number_value(Some(20.0)))]),
    ];

    let conditions = vec![SortCondition {
        property_id: prop_id,
        direction: SortDirection::Ascending,
    }];
    let info = HashMap::from([(
        prop_id_str,
        SortPropertyInfo {
            property_type: PropertyType::Number,
            config: None,
        },
    )]);

    let order = compute_sort_order(&rows, &conditions, &info);
    assert_eq!(order, vec![1, 2, 0]); // 1.0, 20.0, 30.0
}


#[test]
fn sort_date_ascending() {
    let prop_id = PropertyId::new();
    let prop_id_str = prop_id.as_uuid();

    let d1: DateTime<Utc> = "2024-01-01T00:00:00Z".parse().expect("valid");
    let d2: DateTime<Utc> = "2024-06-15T12:00:00Z".parse().expect("valid");
    let d3: DateTime<Utc> = "2024-03-10T08:30:00Z".parse().expect("valid");

    let rows = vec![
        HashMap::from([(prop_id_str, make_date_value(Some(d2)))]),
        HashMap::from([(prop_id_str, make_date_value(Some(d1)))]),
        HashMap::from([(prop_id_str, make_date_value(Some(d3)))]),
    ];

    let conditions = vec![SortCondition {
        property_id: prop_id,
        direction: SortDirection::Ascending,
    }];
    let info = HashMap::from([(
        prop_id_str,
        SortPropertyInfo {
            property_type: PropertyType::Date,
            config: Some(PropertyConfig::Date {
                mode: DateMode::DateTime,
            }),
        },
    )]);

    let order = compute_sort_order(&rows, &conditions, &info);
    assert_eq!(order, vec![1, 2, 0]); // d1, d3, d2
}


#[test]
fn sort_select_by_position_order() {
    let prop_id = PropertyId::new();
    let prop_id_str = prop_id.as_uuid();

    let opt_a = SelectOptionId::new();
    let opt_b = SelectOptionId::new();
    let opt_c = SelectOptionId::new();

    let config = PropertyConfig::Select {
        options: vec![
            SelectOption {
                id: opt_a,
                value: "Alpha".to_owned(),
            },
            SelectOption {
                id: opt_b,
                value: "Bravo".to_owned(),
            },
            SelectOption {
                id: opt_c,
                value: "Charlie".to_owned(),
            },
        ],
    };

    let rows = vec![
        HashMap::from([(
            prop_id_str,
            make_select_value(Some(&opt_c.to_string())),
        )]),
        HashMap::from([(
            prop_id_str,
            make_select_value(Some(&opt_a.to_string())),
        )]),
        HashMap::from([(
            prop_id_str,
            make_select_value(Some(&opt_b.to_string())),
        )]),
    ];

    let conditions = vec![SortCondition {
        property_id: prop_id,
        direction: SortDirection::Ascending,
    }];
    let info = HashMap::from([(
        prop_id_str,
        SortPropertyInfo {
            property_type: PropertyType::Select,
            config: Some(config),
        },
    )]);

    let order = compute_sort_order(&rows, &conditions, &info);
    assert_eq!(order, vec![1, 2, 0]); // Alpha, Bravo, Charlie (by position)
}


#[test]
fn sort_checkbox_false_before_true() {
    let prop_id = PropertyId::new();
    let prop_id_str = prop_id.as_uuid();

    let rows = vec![
        HashMap::from([(prop_id_str, make_checkbox_value(Some(true)))]),
        HashMap::from([(prop_id_str, make_checkbox_value(Some(false)))]),
        HashMap::from([(prop_id_str, make_checkbox_value(Some(true)))]),
    ];

    let conditions = vec![SortCondition {
        property_id: prop_id,
        direction: SortDirection::Ascending,
    }];
    let info = HashMap::from([(
        prop_id_str,
        SortPropertyInfo {
            property_type: PropertyType::Checkbox,
            config: None,
        },
    )]);

    let order = compute_sort_order(&rows, &conditions, &info);
    assert_eq!(order[0], 1); // false first
}


#[test]
fn sort_nulls_last_ascending() {
    let prop_id = PropertyId::new();
    let prop_id_str = prop_id.as_uuid();

    let rows = vec![
        HashMap::from([(prop_id_str, make_text_value(None))]),
        HashMap::from([(prop_id_str, make_text_value(Some("Alpha")))]),
        HashMap::from([(prop_id_str, make_text_value(Some("Bravo")))]),
    ];

    let conditions = vec![SortCondition {
        property_id: prop_id,
        direction: SortDirection::Ascending,
    }];
    let info = HashMap::from([(
        prop_id_str,
        SortPropertyInfo {
            property_type: PropertyType::Text,
            config: None,
        },
    )]);

    let order = compute_sort_order(&rows, &conditions, &info);
    // Alpha, Bravo, null
    assert_eq!(order, vec![1, 2, 0]);
}

#[test]
fn sort_nulls_first_descending() {
    let prop_id = PropertyId::new();
    let prop_id_str = prop_id.as_uuid();

    let rows = vec![
        HashMap::from([(prop_id_str, make_text_value(Some("Alpha")))]),
        HashMap::from([(prop_id_str, make_text_value(None))]),
        HashMap::from([(prop_id_str, make_text_value(Some("Bravo")))]),
    ];

    let conditions = vec![SortCondition {
        property_id: prop_id,
        direction: SortDirection::Descending,
    }];
    let info = HashMap::from([(
        prop_id_str,
        SortPropertyInfo {
            property_type: PropertyType::Text,
            config: None,
        },
    )]);

    let order = compute_sort_order(&rows, &conditions, &info);
    // null, Bravo, Alpha (descending reverses: null=last→first)
    assert_eq!(order, vec![1, 2, 0]);
}

#[test]
fn sort_empty_string_treated_as_null() {
    let prop_id = PropertyId::new();
    let prop_id_str = prop_id.as_uuid();

    let rows = vec![
        HashMap::from([(prop_id_str, make_text_value(Some("")))]),
        HashMap::from([(prop_id_str, make_text_value(Some("Alpha")))]),
    ];

    let conditions = vec![SortCondition {
        property_id: prop_id,
        direction: SortDirection::Ascending,
    }];
    let info = HashMap::from([(
        prop_id_str,
        SortPropertyInfo {
            property_type: PropertyType::Text,
            config: None,
        },
    )]);

    let order = compute_sort_order(&rows, &conditions, &info);
    assert_eq!(order, vec![1, 0]); // Alpha, empty (treated as null, last)
}


#[test]
fn sort_preserves_insertion_order_for_equal_values() {
    let prop_id = PropertyId::new();
    let prop_id_str = prop_id.as_uuid();

    let rows = vec![
        HashMap::from([(prop_id_str, make_text_value(Some("Same")))]),
        HashMap::from([(prop_id_str, make_text_value(Some("Same")))]),
        HashMap::from([(prop_id_str, make_text_value(Some("Same")))]),
    ];

    let conditions = vec![SortCondition {
        property_id: prop_id,
        direction: SortDirection::Ascending,
    }];
    let info = HashMap::from([(
        prop_id_str,
        SortPropertyInfo {
            property_type: PropertyType::Text,
            config: None,
        },
    )]);

    let order = compute_sort_order(&rows, &conditions, &info);
    assert_eq!(order, vec![0, 1, 2]); // Stable: original order preserved
}


#[test]
fn sort_multi_key_primary_tie_broken_by_secondary() {
    let prop1 = PropertyId::new();
    let prop1_str = prop1.as_uuid();
    let prop2 = PropertyId::new();
    let prop2_str = prop2.as_uuid();

    let rows = vec![
        HashMap::from([
            (prop1_str, make_text_value(Some("A"))),
            (prop2_str, make_number_value(Some(3.0))),
        ]),
        HashMap::from([
            (prop1_str, make_text_value(Some("A"))),
            (prop2_str, make_number_value(Some(1.0))),
        ]),
        HashMap::from([
            (prop1_str, make_text_value(Some("B"))),
            (prop2_str, make_number_value(Some(2.0))),
        ]),
    ];

    let conditions = vec![
        SortCondition {
            property_id: prop1,
            direction: SortDirection::Ascending,
        },
        SortCondition {
            property_id: prop2,
            direction: SortDirection::Ascending,
        },
    ];
    let info = HashMap::from([
        (
            prop1_str,
            SortPropertyInfo {
                property_type: PropertyType::Text,
                config: None,
            },
        ),
        (
            prop2_str,
            SortPropertyInfo {
                property_type: PropertyType::Number,
                config: None,
            },
        ),
    ]);

    let order = compute_sort_order(&rows, &conditions, &info);
    // A(1.0), A(3.0), B(2.0) — primary key ties broken by secondary
    assert_eq!(order, vec![1, 0, 2]);
}

#[test]
fn sort_empty_conditions_preserves_order() {
    let rows = vec![HashMap::new(), HashMap::new(), HashMap::new()];
    let order = compute_sort_order(&rows, &[], &HashMap::new());
    assert_eq!(order, vec![0, 1, 2]);
}

#[test]
fn sort_three_plus_conditions_chaining() {
    let p1 = PropertyId::new();
    let p2 = PropertyId::new();
    let p3 = PropertyId::new();
    let p1s = p1.as_uuid();
    let p2s = p2.as_uuid();
    let p3s = p3.as_uuid();

    let rows = vec![
        HashMap::from([
            (p1s, make_text_value(Some("A"))),
            (p2s, make_number_value(Some(1.0))),
            (p3s, make_checkbox_value(Some(true))),
        ]),
        HashMap::from([
            (p1s, make_text_value(Some("A"))),
            (p2s, make_number_value(Some(1.0))),
            (p3s, make_checkbox_value(Some(false))),
        ]),
        HashMap::from([
            (p1s, make_text_value(Some("A"))),
            (p2s, make_number_value(Some(2.0))),
            (p3s, make_checkbox_value(Some(true))),
        ]),
    ];

    let conditions = vec![
        SortCondition {
            property_id: p1,
            direction: SortDirection::Ascending,
        },
        SortCondition {
            property_id: p2,
            direction: SortDirection::Ascending,
        },
        SortCondition {
            property_id: p3,
            direction: SortDirection::Ascending,
        },
    ];
    let info = HashMap::from([
        (
            p1s,
            SortPropertyInfo {
                property_type: PropertyType::Text,
                config: None,
            },
        ),
        (
            p2s,
            SortPropertyInfo {
                property_type: PropertyType::Number,
                config: None,
            },
        ),
        (
            p3s,
            SortPropertyInfo {
                property_type: PropertyType::Checkbox,
                config: None,
            },
        ),
    ]);

    let order = compute_sort_order(&rows, &conditions, &info);
    // All same text "A"; then sorted by number 1.0, 1.0, 2.0;
    // For 1.0 tie, sorted by checkbox false < true
    assert_eq!(order, vec![1, 0, 2]);
}

fn info_of(t: PropertyType) -> SortPropertyInfo {
    SortPropertyInfo { property_type: t, config: None }
}

#[test]
fn sort_numbers_by_total_order_with_nan_last() {
    let pid = PropertyId::new();
    let k = pid.as_uuid();
    let rows = vec![
        HashMap::from([(k, make_number_value(Some(f64::NAN)))]),
        HashMap::from([(k, make_number_value(Some(0.0)))]),
        HashMap::from([(k, make_number_value(Some(-0.0)))]),
        HashMap::from([(k, make_number_value(Some(f64::NEG_INFINITY)))]),
    ];
    let conds = vec![SortCondition { property_id: pid, direction: SortDirection::Ascending }];
    let info = HashMap::from([(k, info_of(PropertyType::Number))]);
    assert_eq!(compute_sort_order(&rows, &conds, &info), vec![3, 2, 1, 0]);
}

#[test]
fn sort_without_property_info_keeps_input_order() {
    let pid = PropertyId::new();
    let k = pid.as_uuid();
    let rows = vec![
        HashMap::from([(k, make_text_value(Some("b")))]),
        HashMap::from([(k, make_text_value(Some("a")))]),
    ];
    let conds = vec![SortCondition { property_id: pid, direction: SortDirection::Descending }];
    assert_eq!(compute_sort_order(&rows, &conds, &HashMap::new()), vec![0, 1]);
}

#[test]
fn sort_select_unknown_option_sorts_with_missing() {
    let pid = PropertyId::new();
    let k = pid.as_uuid();
    let opt = SelectOptionId::new();
    let config = PropertyConfig::Select { options: vec![SelectOption { id: opt, value: "Only".to_owned() }] };
    let rows = vec![
        HashMap::from([(k, make_select_value(Some("not-an-option")))]),
        HashMap::from([(k, make_select_value(Some(&opt.to_string())))]),
        HashMap::from([(k, make_select_value(None))]),
    ];
    let conds = vec![SortCondition { property_id: pid, direction: SortDirection::Ascending }];
    let info = HashMap::from([(k, SortPropertyInfo { property_type: PropertyType::Select, config: Some(config) })]);
    assert_eq!(compute_sort_order(&rows, &conds, &info), vec![1, 0, 2]);
}

#[test]
fn sort_text_compares_code_points_and_prefixes() {
    let pid = PropertyId::new();
    let k = pid.as_uuid();
    let rows = vec![
        HashMap::from([(k, make_text_value(Some("b")))]),
        HashMap::from([(k, make_text_value(Some("ab")))]),
        HashMap::from([(k, make_text_value(Some("a")))]),
        HashMap::from([(k, make_text_value(Some("B")))]),
        HashMap::from([(k, make_text_value(Some("\u{e9}")))]),
    ];
    let conds = vec![SortCondition { property_id: pid, direction: SortDirection::Ascending }];
    let info = HashMap::from([(k, info_of(PropertyType::Text))]);
    assert_eq!(compute_sort_order(&rows, &conds, &info), vec![3, 2, 1, 0, 4]);
}

#[test]
fn sort_descending_keeps_equal_rows_in_input_order() {
    let pid = PropertyId::new();
    let k = pid.as_uuid();
    let rows = vec![
        HashMap::from([(k, make_checkbox_value(Some(false)))]),
        HashMap::from([(k, make_checkbox_value(Some(true)))]),
        HashMap::from([(k, make_checkbox_value(Some(false)))]),
        HashMap::from([(k, make_checkbox_value(Some(true)))]),
    ];
    let conds = vec![SortCondition { property_id: pid, direction: SortDirection::Descending }];
    let info = HashMap::from([(k, info_of(PropertyType::Checkbox))]);
    assert_eq!(compute_sort_order(&rows, &conds, &info), vec![1, 3, 0, 2]);
}

#[test]
fn sort_empty_rows_gives_empty_order() {
    let rows: Vec<HashMap<u128, RowPropertyValue>> = vec![];
    let conds = vec![SortCondition { property_id: PropertyId::new(), direction: SortDirection::Ascending }];
    assert!(compute_sort_order(&rows, &conds, &HashMap::new()).is_empty());
}
