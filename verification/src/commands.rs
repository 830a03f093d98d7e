//! The checks and conversions the frontend's commands run on their input
//! before touching storage.

use vstd::prelude::*;
use vstd::view::View as _;
use std::collections::HashMap;
use crate::filter::type_get;
use crate::ids::{PropertyId, uuid_parsed, uuid_version};
use crate::page::{Page, PageError};
use crate::property::{MAX_PROPERTIES, Property, PropertyError, PropertyType, PropertyValueError, PropertyValueInput, property_type_name};
use crate::text::{concat3, text_eq};
use crate::time::{Timestamp, datetime_parse_error_text, parsed_datetime};
use crate::view::{FilterCondition, FilterOperator, FilterValue, GroupCondition, SortCondition, SortDirection, ViewError, operator_name};

verus! {

/// Whether a filter operator applies to a property type.
pub open spec fn operator_allowed(t: PropertyType, op: FilterOperator) -> bool {
    match t {
        PropertyType::Text => matches!(op, FilterOperator::Equals | FilterOperator::NotEquals
            | FilterOperator::Contains | FilterOperator::NotContains | FilterOperator::IsEmpty
            | FilterOperator::IsNotEmpty),
        PropertyType::Number => matches!(op, FilterOperator::Equals | FilterOperator::NotEquals
            | FilterOperator::GreaterThan | FilterOperator::LessThan | FilterOperator::GreaterOrEqual
            | FilterOperator::LessOrEqual | FilterOperator::IsEmpty | FilterOperator::IsNotEmpty),
        PropertyType::Date => matches!(op, FilterOperator::Equals | FilterOperator::Before
            | FilterOperator::After | FilterOperator::IsEmpty | FilterOperator::IsNotEmpty),
        PropertyType::Select => matches!(op, FilterOperator::Is | FilterOperator::IsNot
            | FilterOperator::IsEmpty | FilterOperator::IsNotEmpty),
        PropertyType::Checkbox => matches!(op, FilterOperator::IsChecked | FilterOperator::IsUnchecked),
    }
}

/// Validates that a filter operator is compatible with a property type.
///
/// # Errors
///
/// [`ViewError::InvalidFilterOperator`] naming the operator and the type.
pub fn validate_filter_operator(prop_type: PropertyType, operator: FilterOperator) -> (r: Result<(), ViewError>)
    ensures
        r is Ok <==> operator_allowed(prop_type, operator),
        r matches Err(e) ==> (e matches ViewError::InvalidFilterOperator { operator: o, property_type: t }
            && o@ == operator_name(operator) && t@ == property_type_name(prop_type)),
{
    let valid = match prop_type {
        PropertyType::Text => match operator {
            FilterOperator::Equals | FilterOperator::NotEquals | FilterOperator::Contains
            | FilterOperator::NotContains | FilterOperator::IsEmpty | FilterOperator::IsNotEmpty => true,
            _ => false,
        },
        PropertyType::Number => match operator {
            FilterOperator::Equals | FilterOperator::NotEquals | FilterOperator::GreaterThan
            | FilterOperator::LessThan | FilterOperator::GreaterOrEqual | FilterOperator::LessOrEqual
            | FilterOperator::IsEmpty | FilterOperator::IsNotEmpty => true,
            _ => false,
        },
        PropertyType::Date => match operator {
            FilterOperator::Equals | FilterOperator::Before | FilterOperator::After
            | FilterOperator::IsEmpty | FilterOperator::IsNotEmpty => true,
            _ => false,
        },
        PropertyType::Select => match operator {
            FilterOperator::Is | FilterOperator::IsNot | FilterOperator::IsEmpty
            | FilterOperator::IsNotEmpty => true,
            _ => false,
        },
        PropertyType::Checkbox => match operator {
            FilterOperator::IsChecked | FilterOperator::IsUnchecked => true,
            _ => false,
        },
    };
    if !valid {
        return Err(
            ViewError::InvalidFilterOperator {
                operator: operator.to_string(),
                property_type: prop_type.to_string(),
            },
        );
    }
    Ok(())
}

/// Whether an operator takes no comparison value.
pub open spec fn operator_takes_no_value(op: FilterOperator) -> bool {
    matches!(op, FilterOperator::IsEmpty | FilterOperator::IsNotEmpty | FilterOperator::IsChecked
        | FilterOperator::IsUnchecked)
}

/// Whether a comparison value's kind fits a property type.
pub open spec fn value_fits(t: PropertyType, v: FilterValue) -> bool {
    match (t, v) {
        (PropertyType::Text, FilterValue::Text(_)) => true,
        (PropertyType::Number, FilterValue::Number(_)) => true,
        (PropertyType::Date, FilterValue::Date(_)) => true,
        (PropertyType::Select, FilterValue::SelectOption(_)) => true,
        _ => false,
    }
}

/// The outcome of checking a filter's comparison value.
pub open spec fn filter_value_outcome(
    t: PropertyType,
    op: FilterOperator,
    value: Option<FilterValue>,
    r: Result<(), ViewError>,
) -> bool {
    if operator_takes_no_value(op) {
        match value {
            None => r is Ok,
            Some(_) => r matches Err(ViewError::InvalidFilterValue { reason }) && reason@ == "operator '"@
                + operator_name(op) + "' must not have a value"@,
        }
    } else {
        match value {
            None => r matches Err(ViewError::InvalidFilterValue { reason }) && reason@ == "operator '"@
                + operator_name(op) + "' requires a value"@,
            Some(v) => if value_fits(t, v) {
                r is Ok
            } else {
                r matches Err(ViewError::InvalidFilterValue { reason }) && reason@
                    == "value type does not match property type '"@ + property_type_name(t) + "'"@
            },
        }
    }
}

/// Validates that a filter's comparison value matches the operator and the
/// property type: the emptiness and checkbox operators take none, the others
/// one of the property's kind.
///
/// # Errors
///
/// [`ViewError::InvalidFilterValue`] saying which rule failed.
pub fn validate_filter_value(
    prop_type: PropertyType,
    operator: FilterOperator,
    value: &Option<FilterValue>,
) -> (r: Result<(), ViewError>)
    ensures
        filter_value_outcome(prop_type, operator, *value, r),
{
    let no_value = match operator {
        FilterOperator::IsEmpty | FilterOperator::IsNotEmpty | FilterOperator::IsChecked
        | FilterOperator::IsUnchecked => true,
        _ => false,
    };
    if no_value {
        if value.is_some() {
            let name = operator.to_string();
            return Err(
                ViewError::InvalidFilterValue {
                    reason: concat3("operator '", name.as_str(), "' must not have a value"),
                },
            );
        }
        return Ok(());
    }
    let val = match value {
        Some(v) => v,
        None => {
            let name = operator.to_string();
            return Err(
                ViewError::InvalidFilterValue {
                    reason: concat3("operator '", name.as_str(), "' requires a value"),
                },
            );
        },
    };
    let fits = match (prop_type, val) {
        (PropertyType::Text, FilterValue::Text(_)) => true,
        (PropertyType::Number, FilterValue::Number(_)) => true,
        (PropertyType::Date, FilterValue::Date(_)) => true,
        (PropertyType::Select, FilterValue::SelectOption(_)) => true,
        _ => false,
    };
    if !fits {
        let name = prop_type.to_string();
        return Err(
            ViewError::InvalidFilterValue {
                reason: concat3("value type does not match property type '", name.as_str(), "'"),
            },
        );
    }
    Ok(())
}

/// A sort condition as the frontend sends it.
#[derive(Debug)]
pub struct SortConditionInput {
    /// Property ID text.
    pub property_id: String,
    /// Sort direction.
    pub direction: SortDirection,
}

/// A group condition as the frontend sends it.
#[derive(Debug)]
pub struct GroupConditionInput {
    /// Property ID text.
    pub property_id: String,
}

/// Whether `e` is the error for an unknown property with a fresh ID.
pub open spec fn unknown_property_error(e: ViewError) -> bool {
    e matches ViewError::PropertyNotFound { id } && uuid_version(id@) == 7
}

/// Parses the property IDs of sort conditions sent by the frontend.
///
/// # Errors
///
/// [`ViewError::PropertyNotFound`] (with a fresh ID) if an ID does not parse.
pub fn parse_sort_inputs(inputs: &[SortConditionInput]) -> (r: Result<Vec<SortCondition>, ViewError>)
    ensures
        match r {
            Ok(v) => v@.len() == inputs@.len() && forall|i: int| 0 <= i < inputs@.len() ==> uuid_parsed(
                #[trigger] inputs@[i].property_id@,
            ) == Some(v@[i].property_id@) && v@[i].direction == inputs@[i].direction,
            Err(e) => unknown_property_error(e) && exists|i: int| 0 <= i < inputs@.len() && uuid_parsed(
                #[trigger] inputs@[i].property_id@,
            ) is None,
        },
{
    let mut out: Vec<SortCondition> = Vec::new();
    let mut i: usize = 0;
    while i < inputs.len()
        invariant
            i <= inputs@.len(),
            out@.len() == i,
            forall|j: int| 0 <= j < i ==> uuid_parsed(#[trigger] inputs@[j].property_id@) == Some(
                out@[j].property_id@,
            ) && out@[j].direction == inputs@[j].direction,
        decreases inputs@.len() - i,
    {
        match PropertyId::from_str(inputs[i].property_id.as_str()) {
            Ok(id) => {
                out.push(SortCondition { property_id: id, direction: inputs[i].direction });
            },
            Err(_) => {
                return Err(ViewError::PropertyNotFound { id: PropertyId::new() });
            },
        }
        i = i + 1;
    }
    Ok(out)
}

/// Parses the property ID of a group condition sent by the frontend.
///
/// # Errors
///
/// [`ViewError::PropertyNotFound`] (with a fresh ID) if the ID does not parse.
pub fn parse_group_input(input: &GroupConditionInput) -> (r: Result<GroupCondition, ViewError>)
    ensures
        match r {
            Ok(g) => uuid_parsed(input.property_id@) == Some(g.property_id@),
            Err(e) => unknown_property_error(e) && uuid_parsed(input.property_id@) is None,
        },
{
    match PropertyId::from_str(input.property_id.as_str()) {
        Ok(id) => Ok(GroupCondition { property_id: id }),
        Err(_) => Err(ViewError::PropertyNotFound { id: PropertyId::new() }),
    }
}

/// Checks that every property ID is among the database's properties.
///
/// # Errors
///
/// [`ViewError::PropertyNotFound`] with the first unknown ID.
pub fn verify_properties_exist(known: &[PropertyId], property_ids: &[PropertyId]) -> (r: Result<(), ViewError>)
    ensures
        match r {
            Ok(()) => forall|i: int| 0 <= i < property_ids@.len() ==> known@.contains(#[trigger] property_ids@[i]),
            Err(e) => exists|i: int| 0 <= i < property_ids@.len() && !known@.contains(#[trigger] property_ids@[i])
                && (forall|j: int| 0 <= j < i ==> known@.contains(property_ids@[j]))
                && e == (ViewError::PropertyNotFound { id: property_ids@[i] }),
        },
{
    let mut i: usize = 0;
    while i < property_ids.len()
        invariant
            i <= property_ids@.len(),
            forall|j: int| 0 <= j < i ==> known@.contains(#[trigger] property_ids@[j]),
        decreases property_ids@.len() - i,
    {
        let pid = property_ids[i];
        let mut found = false;
        let mut k: usize = 0;
        while k < known.len()
            invariant
                k <= known@.len(),
                found == exists|q: int| 0 <= q < k && known@[q] == pid,
            decreases known@.len() - k,
        {
            if known[k] == pid {
                found = true;
            }
            k = k + 1;
        }
        if !found {
            proof {
                if known@.contains(pid) {
                    let q = choose|q: int| 0 <= q < known@.len() && known@[q] == pid;
                    assert(exists|q2: int| 0 <= q2 < known@.len() && known@[q2] == pid);
                }
            }
            return Err(ViewError::PropertyNotFound { id: pid });
        }
        proof {
            let q = choose|q: int| 0 <= q < known@.len() && known@[q] == pid;
            assert(known@[q] == pid);
        }
        i = i + 1;
    }
    Ok(())
}

/// The fields of a property value sent by the frontend as JSON:
/// `{"type": ..., "value": ...}` or, for a select, `{"type": "select",
/// "optionId": ...}`. Each field holds the member if it has that kind.
#[derive(Debug, Clone)]
pub struct ValueInputFields {
    /// The `type` member, if it is a string.
    pub kind_name: Option<String>,
    /// The `value` member, if it is a string.
    pub value_text: Option<String>,
    /// The `value` member, if it is a number (bits of an `f64`).
    pub value_number: Option<u64>,
    /// The `value` member, if it is a boolean.
    pub value_flag: Option<bool>,
    /// The `optionId` member, if it is a string.
    pub option_id: Option<String>,
}

/// Whether `e` is a type mismatch expecting `t`, with a fresh property ID.
pub open spec fn mismatch(e: PropertyValueError, t: PropertyType) -> bool {
    e matches PropertyValueError::TypeMismatch { expected, property_id } && expected == t && uuid_version(
        property_id@,
    ) == 7
}

/// The outcome of parsing a property value's fields.
pub open spec fn value_input_outcome(
    f: ValueInputFields,
    t: PropertyType,
    r: Result<PropertyValueInput, PropertyValueError>,
) -> bool {
    match f.kind_name {
        None => r matches Err(e) && mismatch(e, t),
        Some(name) => if name@ == "text"@ {
            match f.value_text {
                Some(s) => r matches Ok(PropertyValueInput::Text(x)) && x@ == s@,
                None => r matches Err(e) && mismatch(e, PropertyType::Text),
            }
        } else if name@ == "number"@ {
            match f.value_number {
                Some(n) => r == Ok::<PropertyValueInput, PropertyValueError>(PropertyValueInput::Number(n)),
                None => r matches Err(PropertyValueError::InvalidNumber { reason }) && reason@
                    == "missing or invalid number value"@,
            }
        } else if name@ == "date"@ {
            match f.value_text {
                Some(s) => match parsed_datetime(s@) {
                    Some(p) => r matches Ok(PropertyValueInput::Date(d)) && d.spec_secs() == p.0
                        && d.spec_nanos() == p.1,
                    None => r matches Err(PropertyValueError::InvalidDate { reason }) && reason@
                        == datetime_parse_error_text(s@),
                },
                None => r matches Err(PropertyValueError::InvalidDate { reason }) && reason@
                    == "missing date value"@,
            }
        } else if name@ == "select"@ {
            match f.option_id {
                Some(s) => r matches Ok(PropertyValueInput::Select(x)) && x@ == s@,
                None => r matches Err(e) && mismatch(e, PropertyType::Select),
            }
        } else if name@ == "checkbox"@ {
            match f.value_flag {
                Some(b) => r == Ok::<PropertyValueInput, PropertyValueError>(PropertyValueInput::Checkbox(b)),
                None => r matches Err(e) && mismatch(e, PropertyType::Checkbox),
            }
        } else {
            r matches Err(e) && mismatch(e, t)
        },
    }
}

/// Parses the fields of a property value sent by the frontend into an
/// input of the kind its `type` names.
///
/// # Errors
///
/// - [`PropertyValueError::TypeMismatch`] if the `type` is missing or
///   unknown (expecting the property's type), or the member it needs is
///   missing (expecting the type it names).
/// - [`PropertyValueError::InvalidNumber`] if a number is missing.
/// - [`PropertyValueError::InvalidDate`] if a date is missing or does not
///   parse as a date-time.
pub fn parse_value_input(fields: &ValueInputFields, property_type: PropertyType) -> (r: Result<PropertyValueInput, PropertyValueError>)
    ensures
        value_input_outcome(*fields, property_type, r),
{
    let name = match &fields.kind_name {
        Some(n) => n,
        None => {
            return Err(PropertyValueError::TypeMismatch { expected: property_type, property_id: PropertyId::new() });
        },
    };
    if text_eq(name.as_str(), "text") {
        match &fields.value_text {
            Some(s) => Ok(PropertyValueInput::Text(s.clone())),
            None => Err(PropertyValueError::TypeMismatch { expected: PropertyType::Text, property_id: PropertyId::new() }),
        }
    } else if text_eq(name.as_str(), "number") {
        match fields.value_number {
            Some(n) => Ok(PropertyValueInput::Number(n)),
            None => Err(PropertyValueError::InvalidNumber { reason: String::from_str("missing or invalid number value") }),
        }
    } else if text_eq(name.as_str(), "date") {
        match &fields.value_text {
            Some(s) => match Timestamp::parse_rfc3339(s.as_str()) {
                Ok(t) => Ok(PropertyValueInput::Date(t)),
                Err(m) => Err(PropertyValueError::InvalidDate { reason: m }),
            },
            None => Err(PropertyValueError::InvalidDate { reason: String::from_str("missing date value") }),
        }
    } else if text_eq(name.as_str(), "select") {
        match &fields.option_id {
            Some(s) => Ok(PropertyValueInput::Select(s.clone())),
            None => Err(PropertyValueError::TypeMismatch { expected: PropertyType::Select, property_id: PropertyId::new() }),
        }
    } else if text_eq(name.as_str(), "checkbox") {
        match fields.value_flag {
            Some(b) => Ok(PropertyValueInput::Checkbox(b)),
            None => Err(PropertyValueError::TypeMismatch { expected: PropertyType::Checkbox, property_id: PropertyId::new() }),
        }
    } else {
        Err(PropertyValueError::TypeMismatch { expected: property_type, property_id: PropertyId::new() })
    }
}

/// Whether a filter condition names a known property whose type admits its
/// operator and its value.
pub open spec fn condition_valid(c: FilterCondition, types: Map<u128, PropertyType>) -> bool {
    match type_get(types, c.property_id) {
        Some(t) => operator_allowed(t, c.operator) && filter_value_outcome(t, c.operator, c.value, Ok(())),
        None => false,
    }
}

/// Checks every filter condition against the types of the database's
/// properties, in order.
///
/// # Errors
///
/// For the first condition that fails: [`ViewError::PropertyNotFound`] if
/// its property is unknown, else the error of [`validate_filter_operator`],
/// else that of [`validate_filter_value`].
pub fn validate_filter_conditions(
    conditions: &[FilterCondition],
    property_types: &HashMap<u128, PropertyType>,
) -> (r: Result<(), ViewError>)
    ensures
        match r {
            Ok(()) => forall|i: int| 0 <= i < conditions@.len() ==> condition_valid(#[trigger] conditions@[i], property_types@),
            Err(e) => exists|i: int| 0 <= i < conditions@.len() && !condition_valid(#[trigger] conditions@[i], property_types@)
                && (forall|j: int| 0 <= j < i ==> condition_valid(conditions@[j], property_types@))
                && match type_get(property_types@, conditions@[i].property_id) {
                    None => e == (ViewError::PropertyNotFound { id: conditions@[i].property_id }),
                    Some(t) => if !operator_allowed(t, conditions@[i].operator) {
                        e matches ViewError::InvalidFilterOperator { operator: o, property_type: n }
                            && o@ == operator_name(conditions@[i].operator) && n@ == property_type_name(t)
                    } else {
                        filter_value_outcome(t, conditions@[i].operator, conditions@[i].value, Err(e))
                    },
                },
        },
{
    broadcast use vstd::std_specs::hash::group_hash_axioms;
    let mut i: usize = 0;
    while i < conditions.len()
        invariant
            i <= conditions@.len(),
            forall|j: int| 0 <= j < i ==> condition_valid(#[trigger] conditions@[j], property_types@),
        decreases conditions@.len() - i,
    {
        let c = &conditions[i];
        let t = match property_types.get(&c.property_id.as_uuid()) {
            Some(t) => *t,
            None => {
                return Err(ViewError::PropertyNotFound { id: c.property_id });
            },
        };
        match validate_filter_operator(t, c.operator) {
            Ok(()) => {},
            Err(e) => {
                return Err(e);
            },
        }
        let checked = validate_filter_value(t, c.operator, &c.value);
        match checked {
            Ok(()) => {},
            Err(e) => {
                return Err(e);
            },
        }
        i = i + 1;
    }
    Ok(())
}

/// Checks that a page belongs to the database that owns a property, before
/// a value of the property is set for the page.
///
/// # Errors
///
/// [`PropertyValueError::PageNotInDatabase`] otherwise.
pub fn check_page_in_database(page: &Page, property: &Property) -> (r: Result<(), PropertyValueError>)
    ensures
        r is Ok <==> page@.database_id == Some(property@.database_id),
        r matches Err(e) ==> e == (PropertyValueError::PageNotInDatabase {
            page_id: page@.id,
            database_id: property@.database_id,
        }),
{
    match page.database_id() {
        Some(d) => {
            if *d == *property.database_id() {
                return Ok(());
            }
        },
        None => {},
    }
    Err(PropertyValueError::PageNotInDatabase { page_id: *page.id(), database_id: *property.database_id() })
}

/// Checks that a database has room for another property.
///
/// # Errors
///
/// [`PropertyError::TooManyProperties`] if it already has 50.
pub fn check_property_count(count: usize) -> (r: Result<(), PropertyError>)
    ensures
        r is Ok <==> count < MAX_PROPERTIES,
        r matches Err(e) ==> e == (PropertyError::TooManyProperties { count, max: MAX_PROPERTIES }),
{
    if count >= MAX_PROPERTIES {
        return Err(PropertyError::TooManyProperties { count, max: MAX_PROPERTIES });
    }
    Ok(())
}

/// Checks that a page is standalone before it is added to a database.
///
/// # Errors
///
/// [`PageError::AlreadyInDatabase`] naming the database it is in.
pub fn check_page_standalone(page: &Page) -> (r: Result<(), PageError>)
    ensures
        r is Ok <==> page@.database_id is None,
        r matches Err(e) ==> page@.database_id matches Some(d) && e == (PageError::AlreadyInDatabase {
            page_id: page@.id,
            database_id: d,
        }),
{
    match page.database_id() {
        Some(d) => Err(PageError::AlreadyInDatabase { page_id: *page.id(), database_id: *d }),
        None => Ok(()),
    }
}

} // verus!
