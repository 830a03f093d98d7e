use rustydatabasenotes::ids::{DatabaseId, PropertyId, ViewId};
use rustydatabasenotes::view::{
    FilterCondition, FilterOperator, GroupCondition, SortCondition, SortDirection, View, ViewError,
    ViewName, ViewType,
};

#[test]
fn view_name_valid() {
    let name = ViewName::try_from("Table".to_owned());
    assert!(name.is_ok());
    assert_eq!(name.as_ref().map(|n| n.as_str()), Ok("Table"));
}

#[test]
fn view_name_empty_is_rejected() {
    let result = ViewName::try_from(String::new());
    assert!(result.is_err());
}

#[test]
fn view_name_over_100_chars_is_rejected() {
    let s = "a".repeat(101);
    let result = ViewName::try_from(s);
    assert!(result.is_err());
}

#[test]
fn view_name_trims_whitespace() {
    let name = ViewName::try_from("  My View  ".to_owned());
    assert!(name.is_ok());
    assert_eq!(name.as_ref().map(|n| n.as_str()), Ok("My View"));
}

#[test]
fn new_default_view_has_empty_conditions() {
    let view = View::new_default(DatabaseId::new());
    assert_eq!(view.name().as_str(), "Table");
    assert_eq!(view.view_type(), ViewType::Table);
    assert!(view.sort_conditions().is_empty());
    assert!(view.filter_conditions().is_empty());
    assert!(view.group_condition().is_none());
    assert!(view.collapsed_groups().is_empty());
}

#[test]
fn set_sort_conditions_rejects_over_5() {
    let mut view = View::new_default(DatabaseId::new());
    let conditions: Vec<SortCondition> = (0..6)
        .map(|_| SortCondition {
            property_id: PropertyId::new(),
            direction: SortDirection::Ascending,
        })
        .collect();
    let result = view.set_sort_conditions(conditions);
    assert!(matches!(
        result,
        Err(ViewError::TooManySortConditions { count: 6, max: 5 })
    ));
}

#[test]
fn set_sort_conditions_rejects_duplicate_property() {
    let mut view = View::new_default(DatabaseId::new());
    let pid = PropertyId::new();
    let conditions = vec![
        SortCondition {
            property_id: pid.clone(),
            direction: SortDirection::Ascending,
        },
        SortCondition {
            property_id: pid,
            direction: SortDirection::Descending,
        },
    ];
    let result = view.set_sort_conditions(conditions);
    assert!(matches!(
        result,
        Err(ViewError::DuplicateSortProperty { .. })
    ));
}

#[test]
fn set_sort_conditions_accepts_valid() {
    let mut view = View::new_default(DatabaseId::new());
    let conditions = vec![SortCondition {
        property_id: PropertyId::new(),
        direction: SortDirection::Ascending,
    }];
    assert!(view.set_sort_conditions(conditions).is_ok());
    assert_eq!(view.sort_conditions().len(), 1);
}

#[test]
fn set_filter_conditions_rejects_over_20() {
    let mut view = View::new_default(DatabaseId::new());
    let conditions: Vec<FilterCondition> = (0..21)
        .map(|_| FilterCondition {
            property_id: PropertyId::new(),
            operator: FilterOperator::IsEmpty,
            value: None,
        })
        .collect();
    let result = view.set_filter_conditions(conditions);
    assert!(matches!(
        result,
        Err(ViewError::TooManyFilterConditions { count: 21, max: 20 })
    ));
}

#[test]
fn set_group_condition_clears_collapsed_groups() {
    let mut view = View::new_default(DatabaseId::new());
    let pid = PropertyId::new();
    view.set_group_condition(Some(GroupCondition {
        property_id: pid.clone(),
    }));
    view.toggle_collapsed_group(Some("value1".to_owned()))
        .expect("ok");
    assert!(!view.collapsed_groups().is_empty());

    // Change group property → collapsed should be cleared
    view.set_group_condition(Some(GroupCondition {
        property_id: PropertyId::new(),
    }));
    assert!(view.collapsed_groups().is_empty());
}

#[test]
fn toggle_collapsed_group_without_condition_errors() {
    let mut view = View::new_default(DatabaseId::new());
    let result = view.toggle_collapsed_group(Some("value".to_owned()));
    assert!(matches!(result, Err(ViewError::NoGroupCondition)));
}

#[test]
fn toggle_collapsed_group_adds_and_removes() {
    let mut view = View::new_default(DatabaseId::new());
    view.set_group_condition(Some(GroupCondition {
        property_id: PropertyId::new(),
    }));

    // First toggle → add
    view.toggle_collapsed_group(Some("grp".to_owned()))
        .expect("ok");
    assert!(view.collapsed_groups().iter().any(|g| g == "grp"));

    // Second toggle → remove
    view.toggle_collapsed_group(Some("grp".to_owned()))
        .expect("ok");
    assert!(!view.collapsed_groups().iter().any(|g| g == "grp"));
}

#[test]
fn toggle_collapsed_group_null_uses_empty_string() {
    let mut view = View::new_default(DatabaseId::new());
    view.set_group_condition(Some(GroupCondition {
        property_id: PropertyId::new(),
    }));
    view.toggle_collapsed_group(None).expect("ok");
    assert!(view.collapsed_groups().iter().any(|g| g.is_empty()));
}

#[test]
fn reset_clears_all_conditions() {
    let mut view = View::new_default(DatabaseId::new());
    view.set_sort_conditions(vec![SortCondition {
        property_id: PropertyId::new(),
        direction: SortDirection::Ascending,
    }])
    .expect("ok");
    view.set_filter_conditions(vec![FilterCondition {
        property_id: PropertyId::new(),
        operator: FilterOperator::IsEmpty,
        value: None,
    }])
    .expect("ok");
    view.set_group_condition(Some(GroupCondition {
        property_id: PropertyId::new(),
    }));

    view.reset();
    assert!(view.sort_conditions().is_empty());
    assert!(view.filter_conditions().is_empty());
    assert!(view.group_condition().is_none());
    assert!(view.collapsed_groups().is_empty());
}

#[test]
fn remove_property_references_removes_matching() {
    let mut view = View::new_default(DatabaseId::new());
    let target = PropertyId::new();
    let other = PropertyId::new();

    view.set_sort_conditions(vec![
        SortCondition {
            property_id: target.clone(),
            direction: SortDirection::Ascending,
        },
        SortCondition {
            property_id: other.clone(),
            direction: SortDirection::Descending,
        },
    ])
    .expect("ok");
    view.set_filter_conditions(vec![FilterCondition {
        property_id: target.clone(),
        operator: FilterOperator::IsEmpty,
        value: None,
    }])
    .expect("ok");
    view.set_group_condition(Some(GroupCondition {
        property_id: target.clone(),
    }));

    let changed = view.remove_property_references(&target);
    assert!(changed);
    assert_eq!(view.sort_conditions().len(), 1);
    assert_eq!(view.sort_conditions()[0].property_id, other);
    assert!(view.filter_conditions().is_empty());
    assert!(view.group_condition().is_none());
}

#[test]
fn view_id_display_and_from_str_roundtrip() {
    let id = ViewId::new();
    let s = id.to_string();
    let parsed = ViewId::from_str(&s).expect("should parse");
    assert_eq!(id, parsed);
}

#[test]
fn view_name_errors_carry_reasons() {
    match ViewName::try_from("   ".to_owned()) {
        Err(ViewError::InvalidSortCondition { reason }) => assert_eq!(reason, "view name must not be empty"),
        other => panic!("unexpected: {other:?}"),
    }
    match ViewName::try_from("b".repeat(101)) {
        Err(ViewError::InvalidSortCondition { reason }) => {
            assert_eq!(reason, "view name too long: 101 characters (max 100)")
        }
        other => panic!("unexpected: {other:?}"),
    }
    assert!(ViewName::try_from("c".repeat(100)).is_ok());
}

#[test]
fn toggle_twice_restores_collapsed_set() {
    let mut view = View::new_default(DatabaseId::new());
    view.set_group_condition(Some(GroupCondition { property_id: PropertyId::new() }));
    view.toggle_collapsed_group(Some("a".to_owned())).expect("ok");
    let before: Vec<String> = view.collapsed_groups().to_vec();
    view.toggle_collapsed_group(Some("b".to_owned())).expect("ok");
    view.toggle_collapsed_group(Some("b".to_owned())).expect("ok");
    assert_eq!(view.collapsed_groups().to_vec(), before);
}

#[test]
fn duplicate_sort_property_names_first_repeat() {
    let mut view = View::new_default(DatabaseId::new());
    let a = PropertyId::new();
    let b = PropertyId::new();
    let conds = vec![
        SortCondition { property_id: a, direction: SortDirection::Ascending },
        SortCondition { property_id: b, direction: SortDirection::Ascending },
        SortCondition { property_id: b, direction: SortDirection::Descending },
        SortCondition { property_id: a, direction: SortDirection::Descending },
    ];
    assert_eq!(view.set_sort_conditions(conds), Err(ViewError::DuplicateSortProperty { id: b }));
    assert!(view.sort_conditions().is_empty());
}

#[test]
fn remove_property_references_twice_reports_nothing_new() {
    let mut view = View::new_default(DatabaseId::new());
    let target = PropertyId::new();
    view.set_filter_conditions(vec![FilterCondition {
        property_id: target,
        operator: FilterOperator::IsEmpty,
        value: None,
    }])
    .expect("ok");
    assert!(view.remove_property_references(&target));
    assert!(!view.remove_property_references(&target));
    assert!(view.filter_conditions().is_empty());
}

#[test]
fn remove_unrelated_property_keeps_group_and_collapsed() {
    let mut view = View::new_default(DatabaseId::new());
    let gid = PropertyId::new();
    view.set_group_condition(Some(GroupCondition { property_id: gid }));
    view.toggle_collapsed_group(None).expect("ok");
    assert!(!view.remove_property_references(&PropertyId::new()));
    assert_eq!(view.group_condition(), Some(&GroupCondition { property_id: gid }));
    assert_eq!(view.collapsed_groups().len(), 1);
}

#[test]
fn set_same_group_condition_keeps_collapsed() {
    let mut view = View::new_default(DatabaseId::new());
    let gid = PropertyId::new();
    view.set_group_condition(Some(GroupCondition { property_id: gid }));
    view.toggle_collapsed_group(Some("x".to_owned())).expect("ok");
    view.set_group_condition(Some(GroupCondition { property_id: gid }));
    assert_eq!(view.collapsed_groups().len(), 1);
    view.set_group_condition(None);
    assert!(view.collapsed_groups().is_empty());
}

#[test]
fn from_stored_keeps_each_collapsed_key_once() {
    let now = rustydatabasenotes::time::Timestamp::now();
    let view = View::from_stored(
        ViewId::new(),
        DatabaseId::new(),
        ViewName::try_from("T".to_owned()).unwrap(),
        ViewType::Table,
        vec![],
        vec![],
        None,
        vec!["a".to_owned(), "b".to_owned(), "a".to_owned()],
        now,
        now,
    );
    assert_eq!(view.collapsed_groups().to_vec(), vec!["a".to_owned(), "b".to_owned()]);
}

#[test]
fn filter_operator_names_are_camel_case() {
    assert_eq!(FilterOperator::NotEquals.to_string(), "notEquals");
    assert_eq!(FilterOperator::GreaterOrEqual.to_string(), "greaterOrEqual");
    assert_eq!(FilterOperator::IsNotEmpty.to_string(), "isNotEmpty");
    assert_eq!(FilterOperator::Is.to_string(), "is");
    assert_eq!(ViewType::Table.to_string(), "table");
}

#[test]
fn too_many_filters_leaves_view_unchanged() {
    let mut view = View::new_default(DatabaseId::new());
    let cond = |p| FilterCondition { property_id: p, operator: FilterOperator::IsEmpty, value: None };
    view.set_filter_conditions(vec![cond(PropertyId::new())]).expect("ok");
    let many: Vec<FilterCondition> = (0..21).map(|_| cond(PropertyId::new())).collect();
    assert!(view.set_filter_conditions(many).is_err());
    assert_eq!(view.filter_conditions().len(), 1);
}
