use std::collections::HashMap;

use rustydatabasenotes::ids::{DatabaseId, PropertyId};
use rustydatabasenotes::property::PropertyType;
use rustydatabasenotes::sort::{RowPropertyValue, SortPropertyInfo};
use rustydatabasenotes::table::arrange_rows;
use rustydatabasenotes::view::{
    FilterCondition, FilterOperator, FilterValue, GroupCondition, SortCondition, SortDirection, View,
};

fn text(s: Option<&str>) -> RowPropertyValue {
    RowPropertyValue {
        text_value: s.map(|x| x.to_owned()),
        number_value: None,
        number_text: None,
        date_value: None,
        boolean_value: None,
    }
}

fn number(n: f64) -> RowPropertyValue {
    RowPropertyValue {
        text_value: None,
        number_value: Some(n.to_bits()),
        number_text: Some(format!("{n}")),
        date_value: None,
        boolean_value: None,
    }
}

struct Fixture {
    name: PropertyId,
    age: PropertyId,
    rows: Vec<HashMap<u128, RowPropertyValue>>,
    types: HashMap<u128, PropertyType>,
    info: HashMap<u128, SortPropertyInfo>,
}

fn fixture() -> Fixture {
    let name = PropertyId::new();
    let age = PropertyId::new();
    let people = [("Bob", 30.0), ("alice", 25.0), ("Carol", 35.0), ("Alice", 40.0)];
    let rows = people
        .iter()
        .map(|(n, a)| HashMap::from([(name.as_uuid(), text(Some(n))), (age.as_uuid(), number(*a))]))
        .collect();
    let types = HashMap::from([(name.as_uuid(), PropertyType::Text), (age.as_uuid(), PropertyType::Number)]);
    let info = HashMap::from([
        (name.as_uuid(), SortPropertyInfo { property_type: PropertyType::Text, config: None }),
        (age.as_uuid(), SortPropertyInfo { property_type: PropertyType::Number, config: None }),
    ]);
    Fixture { name, age, rows, types, info }
}

#[test]
fn arrange_default_view_keeps_every_row_in_order() {
    let f = fixture();
    let view = View::new_default(DatabaseId::new());
    let layout = arrange_rows(&f.rows, &view, &f.types, &f.info);
    assert_eq!(layout.rows, vec![0, 1, 2, 3]);
    assert!(layout.groups.is_none());
}

#[test]
fn arrange_filters_then_sorts() {
    let f = fixture();
    let mut view = View::new_default(DatabaseId::new());
    view.set_filter_conditions(vec![FilterCondition {
        property_id: f.age,
        operator: FilterOperator::GreaterThan,
        value: Some(FilterValue::Number(26.0f64.to_bits())),
    }])
    .unwrap();
    view.set_sort_conditions(vec![SortCondition { property_id: f.age, direction: SortDirection::Descending }])
        .unwrap();
    let layout = arrange_rows(&f.rows, &view, &f.types, &f.info);
    assert_eq!(layout.rows, vec![3, 2, 0]);
}

#[test]
fn arrange_groups_and_hides_collapsed_groups() {
    let f = fixture();
    let mut view = View::new_default(DatabaseId::new());
    view.set_sort_conditions(vec![SortCondition { property_id: f.age, direction: SortDirection::Ascending }])
        .unwrap();
    view.set_group_condition(Some(GroupCondition { property_id: f.name }));
    let layout = arrange_rows(&f.rows, &view, &f.types, &f.info);
    let groups = layout.groups.clone().expect("grouped");
    let labels: Vec<&str> = groups.iter().map(|g| g.display_value.as_str()).collect();
    assert_eq!(labels, vec!["alice", "bob", "carol"]);
    assert_eq!(groups[0].count, 2);
    assert_eq!(layout.rows, vec![1, 3, 0, 2]);

    view.toggle_collapsed_group(Some("alice".to_owned())).unwrap();
    let layout = arrange_rows(&f.rows, &view, &f.types, &f.info);
    assert_eq!(layout.rows, vec![0, 2]);
    assert!(layout.groups.expect("grouped")[0].is_collapsed);
}

#[test]
fn arrange_groups_by_unknown_property_as_text() {
    let f = fixture();
    let mut view = View::new_default(DatabaseId::new());
    view.set_group_condition(Some(GroupCondition { property_id: PropertyId::new() }));
    let layout = arrange_rows(&f.rows, &view, &f.types, &f.info);
    let groups = layout.groups.expect("grouped");
    assert_eq!(groups.len(), 1);
    assert_eq!(groups[0].display_value, "未設定");
    assert_eq!(layout.rows, vec![0, 1, 2, 3]);
}
