//! Selecting the rows of a table view that meet all its filter conditions.

use vstd::prelude::*;
use std::collections::HashMap;
use crate::ids::PropertyId;
use crate::number::{f64_eq, f64_lt, f64_nan, lemma_key_injective, num_eq, num_lt};
use crate::property::PropertyType;
use crate::sort::{RowPropertyValue, row_get, row_value};
use crate::text::text_eq;
use crate::time::{Timestamp, minute_text, parsed_datetime_or_date, timestamp_lt};
use crate::view::{FilterCondition, FilterOperator, FilterValue};

verus! {

broadcast use vstd::std_specs::hash::group_hash_axioms;

/// What `str::to_lowercase` returns for the text (Unicode lowercase mapping).
pub uninterp spec fn lowercase_text(s: Seq<char>) -> Seq<char>;

/// Calls `str::to_lowercase`.
#[verifier::external_body]
pub(crate) fn lowercase(s: &str) -> (r: String)
    ensures
        r@ == lowercase_text(s@),
{
    s.to_lowercase()
}

/// Whether `needle` occurs in `hay` as a run of consecutive characters.
pub open spec fn occurs_in(hay: Seq<char>, needle: Seq<char>) -> bool {
    exists|i: int| 0 <= i && i + needle.len() <= hay.len() && #[trigger] hay.subrange(i, i + needle.len()) == needle
}

/// Whether `needle` occurs in `hay`.
pub fn text_contains(hay: &str, needle: &str) -> (r: bool)
    ensures
        r == occurs_in(hay@, needle@),
{
    let n = hay.unicode_len();
    let m = needle.unicode_len();
    if m > n {
        return false;
    }
    let mut i: usize = 0;
    while i <= n - m
        invariant
            n == hay@.len(),
            m == needle@.len(),
            m <= n,
            i <= n - m + 1,
            forall|k: int| 0 <= k < i ==> #[trigger] hay@.subrange(k, k + m) != needle@,
        decreases n - m + 1 - i,
    {
        let mut j: usize = 0;
        let mut same = true;
        while j < m
            invariant
                n == hay@.len(),
                m == needle@.len(),
                i + m <= n,
                j <= m,
                same == forall|k: int| 0 <= k < j ==> hay@[i + k] == needle@[k],
            decreases m - j,
        {
            if hay.get_char(i + j) != needle.get_char(j) {
                same = false;
            }
            j = j + 1;
        }
        if same {
            assert(hay@.subrange(i as int, i + m) =~= needle@);
            return true;
        }
        assert(hay@.subrange(i as int, i + m)[0] == hay@[i as int + 0] || m == 0);
        proof {
            if hay@.subrange(i as int, i + m) == needle@ {
                assert forall|k: int| 0 <= k < m implies hay@[i + k] == needle@[k] by {
                    assert(hay@.subrange(i as int, i + m)[k] == hay@[i + k]);
                }
            }
        }
        i = i + 1;
    }
    proof {
        assert forall|k: int| 0 <= k && k + m <= n implies #[trigger] hay@.subrange(k, k + m) != needle@ by {
            assert(k < i);
        }
    }
    false
}

/// The type recorded for a property, if one is.
pub open spec fn type_get(types: Map<u128, PropertyType>, pid: PropertyId) -> Option<PropertyType> {
    if types.contains_key(pid@) {
        Some(types[pid@])
    } else {
        None
    }
}

/// Whether a row's value counts as empty: only a missing value does (zero,
/// the empty text and `false` are values). A property of unknown type is
/// always empty.
pub open spec fn value_is_empty(v: Option<RowPropertyValue>, t: Option<PropertyType>) -> bool {
    match v {
        None => true,
        Some(val) => match t {
            Some(PropertyType::Text) => val.text_value is None,
            Some(PropertyType::Select) => val.text_value is None,
            Some(PropertyType::Number) => val.number_value is None,
            Some(PropertyType::Date) => val.date_value is None,
            Some(PropertyType::Checkbox) => val.boolean_value is None,
            None => true,
        },
    }
}

/// Whether a row's checkbox value is checked.
pub open spec fn value_checked(v: Option<RowPropertyValue>) -> bool {
    v matches Some(val) && val.boolean_value == Some(true)
}

/// Text matching: case-insensitive equality or containment.
pub open spec fn text_matches(v: Option<RowPropertyValue>, c: FilterCondition) -> bool {
    match (c.value, v) {
        (Some(FilterValue::Text(f)), Some(val)) => match val.text_value {
            Some(t) => {
                let tl = lowercase_text(t@);
                let fl = lowercase_text(f@);
                match c.operator {
                    FilterOperator::Equals => tl == fl,
                    FilterOperator::NotEquals => tl != fl,
                    FilterOperator::Contains => occurs_in(tl, fl),
                    FilterOperator::NotContains => !occurs_in(tl, fl),
                    _ => true,
                }
            },
            None => false,
        },
        _ => false,
    }
}

/// Number matching, with IEEE 754 comparisons (nothing compares with NaN).
pub open spec fn number_matches(v: Option<RowPropertyValue>, c: FilterCondition) -> bool {
    match (c.value, v) {
        (Some(FilterValue::Number(f)), Some(val)) => match val.number_value {
            Some(n) => match c.operator {
                FilterOperator::Equals => f64_eq(n, f),
                FilterOperator::NotEquals => !f64_eq(n, f),
                FilterOperator::GreaterThan => f64_lt(f, n),
                FilterOperator::LessThan => f64_lt(n, f),
                FilterOperator::GreaterOrEqual => f64_lt(f, n) || f64_eq(n, f),
                FilterOperator::LessOrEqual => f64_lt(n, f) || f64_eq(n, f),
                _ => true,
            },
            None => false,
        },
        _ => false,
    }
}

/// Date matching: `Equals` to the minute, `Before` exclusive, `After`
/// inclusive. A filter date that parses neither as a date-time nor as a date
/// matches nothing.
pub open spec fn date_matches(v: Option<RowPropertyValue>, c: FilterCondition) -> bool {
    match (c.value, v) {
        (Some(FilterValue::Date(f)), Some(val)) => match (val.date_value, parsed_datetime_or_date(f@)) {
            (Some(d), Some(p)) => match c.operator {
                FilterOperator::Equals => minute_text(d.spec_secs(), d.spec_nanos()) == minute_text(p.0, p.1),
                FilterOperator::Before => d.spec_secs() < p.0 || (d.spec_secs() == p.0 && d.spec_nanos() < p.1),
                FilterOperator::After => !(d.spec_secs() < p.0 || (d.spec_secs() == p.0 && d.spec_nanos() < p.1)),
                _ => true,
            },
            _ => false,
        },
        _ => false,
    }
}

/// Select matching by option ID; a row without an option is not the option.
pub open spec fn select_matches(v: Option<RowPropertyValue>, c: FilterCondition) -> bool {
    match c.value {
        Some(FilterValue::SelectOption(f)) => {
            let chosen = v matches Some(val) && val.text_value matches Some(t) && t@ == f@;
            match c.operator {
                FilterOperator::Is => chosen,
                FilterOperator::IsNot => !chosen,
                _ => true,
            }
        },
        _ => false,
    }
}

/// Whether a row's value meets a condition on a property of type `t`. A
/// comparison on a property of unknown type, or on a checkbox, keeps the row.
pub open spec fn condition_holds(v: Option<RowPropertyValue>, c: FilterCondition, t: Option<PropertyType>) -> bool {
    match c.operator {
        FilterOperator::IsEmpty => value_is_empty(v, t),
        FilterOperator::IsNotEmpty => !value_is_empty(v, t),
        FilterOperator::IsChecked => value_checked(v),
        FilterOperator::IsUnchecked => !value_checked(v),
        _ => match t {
            Some(PropertyType::Text) => text_matches(v, c),
            Some(PropertyType::Number) => number_matches(v, c),
            Some(PropertyType::Date) => date_matches(v, c),
            Some(PropertyType::Select) => select_matches(v, c),
            _ => true,
        },
    }
}

/// Whether a row meets every condition.
pub open spec fn row_passes(
    row: Map<u128, RowPropertyValue>,
    conditions: Seq<FilterCondition>,
    types: Map<u128, PropertyType>,
) -> bool {
    forall|k: int| 0 <= k < conditions.len() ==> #[trigger] condition_holds(
        row_get(row, conditions[k].property_id),
        conditions[k],
        type_get(types, conditions[k].property_id),
    )
}

/// Whether a sequence of indices is strictly increasing.
pub open spec fn increasing(s: Seq<usize>) -> bool {
    forall|a: int, b: int| 0 <= a < b < s.len() ==> s[a] < s[b]
}

fn is_empty(v: Option<&RowPropertyValue>, t: Option<PropertyType>) -> (r: bool)
    ensures
        r == value_is_empty(
            match v {
                Some(x) => Some(*x),
                None => None,
            },
            t,
        ),
{
    match v {
        None => true,
        Some(val) => match t {
            Some(PropertyType::Text) => val.text_value.is_none(),
            Some(PropertyType::Select) => val.text_value.is_none(),
            Some(PropertyType::Number) => val.number_value.is_none(),
            Some(PropertyType::Date) => val.date_value.is_none(),
            Some(PropertyType::Checkbox) => val.boolean_value.is_none(),
            None => true,
        },
    }
}

fn is_checked(v: Option<&RowPropertyValue>) -> (r: bool)
    ensures
        r == value_checked(
            match v {
                Some(x) => Some(*x),
                None => None,
            },
        ),
{
    match v {
        Some(val) => match val.boolean_value {
            Some(b) => b,
            None => false,
        },
        None => false,
    }
}

fn match_text(v: Option<&RowPropertyValue>, c: &FilterCondition) -> (r: bool)
    ensures
        r == text_matches(
            match v {
                Some(x) => Some(*x),
                None => None,
            },
            *c,
        ),
{
    let filter_text = match &c.value {
        Some(FilterValue::Text(s)) => s,
        _ => return false,
    };
    let text = match v {
        Some(val) => match &val.text_value {
            Some(t) => t,
            None => return false,
        },
        None => return false,
    };
    let tl = lowercase(text.as_str());
    let fl = lowercase(filter_text.as_str());
    match c.operator {
        FilterOperator::Equals => text_eq(tl.as_str(), fl.as_str()),
        FilterOperator::NotEquals => !text_eq(tl.as_str(), fl.as_str()),
        FilterOperator::Contains => text_contains(tl.as_str(), fl.as_str()),
        FilterOperator::NotContains => !text_contains(tl.as_str(), fl.as_str()),
        _ => true,
    }
}

fn match_number(v: Option<&RowPropertyValue>, c: &FilterCondition) -> (r: bool)
    ensures
        r == number_matches(
            match v {
                Some(x) => Some(*x),
                None => None,
            },
            *c,
        ),
{
    let f = match &c.value {
        Some(FilterValue::Number(n)) => *n,
        _ => return false,
    };
    let n = match v {
        Some(val) => match val.number_value {
            Some(n) => n,
            None => return false,
        },
        None => return false,
    };
    match c.operator {
        FilterOperator::Equals => num_eq(n, f),
        FilterOperator::NotEquals => !num_eq(n, f),
        FilterOperator::GreaterThan => num_lt(f, n),
        FilterOperator::LessThan => num_lt(n, f),
        FilterOperator::GreaterOrEqual => num_lt(f, n) || num_eq(n, f),
        FilterOperator::LessOrEqual => num_lt(n, f) || num_eq(n, f),
        _ => true,
    }
}

fn match_date(v: Option<&RowPropertyValue>, c: &FilterCondition) -> (r: bool)
    ensures
        r == date_matches(
            match v {
                Some(x) => Some(*x),
                None => None,
            },
            *c,
        ),
{
    let filter_text = match &c.value {
        Some(FilterValue::Date(s)) => s,
        _ => return false,
    };
    let date = match v {
        Some(val) => match val.date_value {
            Some(d) => d,
            None => return false,
        },
        None => return false,
    };
    let filter_date = match Timestamp::parse_datetime_or_date(filter_text.as_str()) {
        Some(t) => t,
        None => return false,
    };
    match c.operator {
        FilterOperator::Equals => {
            let a = date.minute();
            let b = filter_date.minute();
            text_eq(a.as_str(), b.as_str())
        },
        FilterOperator::Before => timestamp_lt(&date, &filter_date),
        FilterOperator::After => !timestamp_lt(&date, &filter_date),
        _ => true,
    }
}

fn match_select(v: Option<&RowPropertyValue>, c: &FilterCondition) -> (r: bool)
    ensures
        r == select_matches(
            match v {
                Some(x) => Some(*x),
                None => None,
            },
            *c,
        ),
{
    let f = match &c.value {
        Some(FilterValue::SelectOption(s)) => s,
        _ => return false,
    };
    let chosen = match v {
        Some(val) => match &val.text_value {
            Some(t) => text_eq(t.as_str(), f.as_str()),
            None => false,
        },
        None => false,
    };
    match c.operator {
        FilterOperator::Is => chosen,
        FilterOperator::IsNot => !chosen,
        _ => true,
    }
}

/// Checks whether a row's value meets a filter condition on a property of
/// the given type.
pub fn matches_condition(
    row_val: Option<&RowPropertyValue>,
    condition: &FilterCondition,
    prop_type: Option<PropertyType>,
) -> (r: bool)
    ensures
        r == condition_holds(
            match row_val {
                Some(x) => Some(*x),
                None => None,
            },
            *condition,
            prop_type,
        ),
{
    match condition.operator {
        FilterOperator::IsEmpty => is_empty(row_val, prop_type),
        FilterOperator::IsNotEmpty => !is_empty(row_val, prop_type),
        FilterOperator::IsChecked => is_checked(row_val),
        FilterOperator::IsUnchecked => !is_checked(row_val),
        _ => match prop_type {
            Some(PropertyType::Text) => match_text(row_val, condition),
            Some(PropertyType::Number) => match_number(row_val, condition),
            Some(PropertyType::Date) => match_date(row_val, condition),
            Some(PropertyType::Select) => match_select(row_val, condition),
            _ => true,
        },
    }
}

/// Applies filter conditions (all must hold) to rows and returns the
/// indices of the rows that meet them, in increasing order.
pub fn apply_filters(
    row_values: &[HashMap<u128, RowPropertyValue>],
    conditions: &[FilterCondition],
    property_types: &HashMap<u128, PropertyType>,
) -> (r: Vec<usize>)
    ensures
        increasing(r@),
        forall|k: int| 0 <= k < r@.len() ==> r@[k] < row_values@.len(),
        forall|i: int| 0 <= i < row_values@.len() ==> (r@.contains(i as usize) <==> row_passes(
            row_values@[i]@,
            conditions@,
            property_types@,
        )),
{
    let mut out: Vec<usize> = Vec::new();
    let mut i: usize = 0;
    while i < row_values.len()
        invariant
            i <= row_values@.len(),
            increasing(out@),
            forall|k: int| 0 <= k < out@.len() ==> out@[k] < i,
            forall|j: int| 0 <= j < i ==> (out@.contains(j as usize) <==> row_passes(
                row_values@[j]@,
                conditions@,
                property_types@,
            )),
        decreases row_values@.len() - i,
    {
        let row = &row_values[i];
        let mut all = true;
        let mut k: usize = 0;
        while k < conditions.len()
            invariant
                k <= conditions@.len(),
                row == row_values@[i as int],
                all == forall|q: int| 0 <= q < k ==> #[trigger] condition_holds(
                    row_get(row@, conditions@[q].property_id),
                    conditions@[q],
                    type_get(property_types@, conditions@[q].property_id),
                ),
            decreases conditions@.len() - k,
        {
            let c = &conditions[k];
            let v = row_value(row, c.property_id);
            let t = match property_types.get(&c.property_id.as_uuid()) {
                Some(t) => Some(*t),
                None => None,
            };
            let ok = matches_condition(v, c, t);
            proof {
                assert(t == type_get(property_types@, c.property_id));
                assert(ok == condition_holds(
                    row_get(row@, conditions@[k as int].property_id),
                    conditions@[k as int],
                    type_get(property_types@, conditions@[k as int].property_id),
                ));
            }
            if !ok {
                all = false;
            }
            k = k + 1;
        }
        let ghost before = out@;
        if all {
            out.push(i);
        }
        proof {
            assert forall|j: int| 0 <= j < i + 1 implies (out@.contains(j as usize) <==> row_passes(
                row_values@[j]@,
                conditions@,
                property_types@,
            )) by {
                if j < i {
                    if out@.contains(j as usize) {
                        let q = choose|q: int| 0 <= q < out@.len() && out@[q] == j as usize;
                        if q == before.len() {
                            assert(out@[q] == i);
                        } else {
                            assert(before[q] == out@[q]);
                        }
                    }
                    if before.contains(j as usize) {
                        let q = choose|q: int| 0 <= q < before.len() && before[q] == j as usize;
                        assert(out@[q] == before[q]);
                    }
                } else {
                    if all {
                        assert(out@[before.len() as int] == i);
                    } else {
                        if out@.contains(j as usize) {
                            let q = choose|q: int| 0 <= q < out@.len() && out@[q] == j as usize;
                            assert(before[q] < i);
                        }
                    }
                }
            }
        }
        i = i + 1;
    }
    out
}

/// Conditions combine with AND: a row meets the conditions `a` followed by
/// `b` exactly when it meets `a` and meets `b`; with no condition every row
/// is kept.
pub proof fn law_conditions_combine(
    row: Map<u128, RowPropertyValue>,
    a: Seq<FilterCondition>,
    b: Seq<FilterCondition>,
    types: Map<u128, PropertyType>,
)
    ensures
        row_passes(row, a + b, types) == (row_passes(row, a, types) && row_passes(row, b, types)),
        row_passes(row, Seq::<FilterCondition>::empty(), types),
{
    if row_passes(row, a, types) && row_passes(row, b, types) {
        assert forall|k: int| 0 <= k < (a + b).len() implies #[trigger] condition_holds(
            row_get(row, (a + b)[k].property_id),
            (a + b)[k],
            type_get(types, (a + b)[k].property_id),
        ) by {
            if k < a.len() {
                assert((a + b)[k] == a[k]);
            } else {
                assert((a + b)[k] == b[k - a.len()]);
            }
        }
    }
    if row_passes(row, a + b, types) {
        assert forall|k: int| 0 <= k < a.len() implies #[trigger] condition_holds(
            row_get(row, a[k].property_id),
            a[k],
            type_get(types, a[k].property_id),
        ) by {
            assert((a + b)[k] == a[k]);
        }
        assert forall|k: int| 0 <= k < b.len() implies #[trigger] condition_holds(
            row_get(row, b[k].property_id),
            b[k],
            type_get(types, b[k].property_id),
        ) by {
            assert((a + b)[k + a.len()] == b[k]);
        }
    }
}

/// For any value, exactly one of `IsEmpty` and `IsNotEmpty` holds, and
/// exactly one of `IsChecked` and `IsUnchecked`.
pub proof fn law_complementary_operators(
    v: Option<RowPropertyValue>,
    pid: PropertyId,
    value: Option<FilterValue>,
    t: Option<PropertyType>,
)
    ensures
        condition_holds(v, FilterCondition { property_id: pid, operator: FilterOperator::IsEmpty, value }, t)
            != condition_holds(v, FilterCondition { property_id: pid, operator: FilterOperator::IsNotEmpty, value }, t),
        condition_holds(v, FilterCondition { property_id: pid, operator: FilterOperator::IsChecked, value }, t)
            != condition_holds(v, FilterCondition { property_id: pid, operator: FilterOperator::IsUnchecked, value }, t),
{
}

/// A row holding a date is either before a parseable filter date or after
/// it (inclusive), never both.
pub proof fn law_before_after_partition(val: RowPropertyValue, pid: PropertyId, f: String)
    requires
        val.date_value is Some,
        parsed_datetime_or_date(f@) is Some,
    ensures
        date_matches(Some(val), FilterCondition { property_id: pid, operator: FilterOperator::Before, value: Some(FilterValue::Date(f)) })
            != date_matches(Some(val), FilterCondition { property_id: pid, operator: FilterOperator::After, value: Some(FilterValue::Date(f)) }),
{
}

/// The rows kept by the filter are determined: two increasing index
/// sequences below `n` that hold exactly the rows meeting the conditions are
/// the same.
pub proof fn law_filter_unique(
    r1: Seq<usize>,
    r2: Seq<usize>,
    rows: Seq<Map<u128, RowPropertyValue>>,
    conditions: Seq<FilterCondition>,
    types: Map<u128, PropertyType>,
)
    requires
        increasing(r1),
        increasing(r2),
        forall|k: int| 0 <= k < r1.len() ==> r1[k] < rows.len(),
        forall|k: int| 0 <= k < r2.len() ==> r2[k] < rows.len(),
        forall|i: int| 0 <= i < rows.len() ==> (r1.contains(i as usize) <==> row_passes(rows[i], conditions, types)),
        forall|i: int| 0 <= i < rows.len() ==> (r2.contains(i as usize) <==> row_passes(rows[i], conditions, types)),
    ensures
        r1 == r2,
{
    assert forall|x: usize| r1.contains(x) <==> r2.contains(x) by {
        if r1.contains(x) {
            let k = choose|k: int| 0 <= k < r1.len() && r1[k] == x;
            assert(x < rows.len());
            assert(r1.contains((x as int) as usize));
            assert(row_passes(rows[x as int], conditions, types));
            assert(r2.contains((x as int) as usize));
        }
        if r2.contains(x) {
            let k = choose|k: int| 0 <= k < r2.len() && r2[k] == x;
            assert(x < rows.len());
            assert(r2.contains((x as int) as usize));
            assert(row_passes(rows[x as int], conditions, types));
            assert(r1.contains((x as int) as usize));
        }
    }
    lemma_increasing_unique(r1, r2);
}

/// Two increasing sequences with the same elements are equal.
proof fn lemma_increasing_unique(r1: Seq<usize>, r2: Seq<usize>)
    requires
        increasing(r1),
        increasing(r2),
        forall|x: usize| r1.contains(x) <==> r2.contains(x),
    ensures
        r1 == r2,
    decreases r1.len() + r2.len(),
{
    if r1.len() == 0 || r2.len() == 0 {
        if r1.len() > 0 {
            assert(r1.contains(r1[0]));
        }
        if r2.len() > 0 {
            assert(r2.contains(r2[0]));
        }
        assert(r1 =~= r2);
    } else {
        let x = r1[0];
        let y = r2[0];
        assert(r1.contains(x));
        assert(r2.contains(y));
        let j = choose|j: int| 0 <= j < r1.len() && r1[j] == y;
        let k = choose|k: int| 0 <= k < r2.len() && r2[k] == x;
        if j > 0 {
            assert(x < y);
        }
        if k > 0 {
            assert(y < x);
        }
        assert(x == y);
        let t1 = r1.drop_first();
        let t2 = r2.drop_first();
        assert forall|z: usize| t1.contains(z) <==> t2.contains(z) by {
            if t1.contains(z) {
                let q = choose|q: int| 0 <= q < t1.len() && t1[q] == z;
                assert(r1[q + 1] == z && x < z);
                assert(r1.contains(z));
                let w = choose|w: int| 0 <= w < r2.len() && r2[w] == z;
                assert(w != 0);
                assert(t2[w - 1] == z);
            }
            if t2.contains(z) {
                let q = choose|q: int| 0 <= q < t2.len() && t2[q] == z;
                assert(r2[q + 1] == z && y < z);
                assert(r2.contains(z));
                let w = choose|w: int| 0 <= w < r1.len() && r1[w] == z;
                assert(w != 0);
                assert(t1[w - 1] == z);
            }
        }
        lemma_increasing_unique(t1, t2);
        assert(r1 =~= seq![x] + t1);
        assert(r2 =~= seq![y] + t2);
    }
}

/// Whether a row holding `val` meets the condition `op f` on a number
/// property.
pub open spec fn number_condition_holds(val: RowPropertyValue, pid: PropertyId, op: FilterOperator, f: u64) -> bool {
    condition_holds(
        Some(val),
        FilterCondition { property_id: pid, operator: op, value: Some(FilterValue::Number(f)) },
        Some(PropertyType::Number),
    )
}

/// Number comparisons are strict where they say so: for a row number and a
/// filter number that are not NaN, exactly one of `LessThan`, `Equals` and
/// `GreaterThan` holds; `LessThan` holds exactly when `GreaterOrEqual` does
/// not, and `GreaterThan` exactly when `LessOrEqual` does not. In
/// particular a row whose number equals the filter number meets neither
/// `LessThan` nor `GreaterThan`, and meets `LessOrEqual` and
/// `GreaterOrEqual`.
pub proof fn law_number_comparisons(val: RowPropertyValue, pid: PropertyId, f: u64)
    requires
        val.number_value matches Some(n) && !f64_nan(n),
        !f64_nan(f),
    ensures
        number_condition_holds(val, pid, FilterOperator::LessThan, f) != number_condition_holds(
            val,
            pid,
            FilterOperator::GreaterOrEqual,
            f,
        ),
        number_condition_holds(val, pid, FilterOperator::GreaterThan, f) != number_condition_holds(
            val,
            pid,
            FilterOperator::LessOrEqual,
            f,
        ),
        number_condition_holds(val, pid, FilterOperator::LessThan, f) || number_condition_holds(
            val,
            pid,
            FilterOperator::Equals,
            f,
        ) || number_condition_holds(val, pid, FilterOperator::GreaterThan, f),
        !(number_condition_holds(val, pid, FilterOperator::LessThan, f) && number_condition_holds(
            val,
            pid,
            FilterOperator::Equals,
            f,
        )),
        !(number_condition_holds(val, pid, FilterOperator::LessThan, f) && number_condition_holds(
            val,
            pid,
            FilterOperator::GreaterThan,
            f,
        )),
        !(number_condition_holds(val, pid, FilterOperator::Equals, f) && number_condition_holds(
            val,
            pid,
            FilterOperator::GreaterThan,
            f,
        )),
        val.number_value == Some(f) ==> !number_condition_holds(val, pid, FilterOperator::LessThan, f)
            && !number_condition_holds(val, pid, FilterOperator::GreaterThan, f)
            && number_condition_holds(val, pid, FilterOperator::LessOrEqual, f)
            && number_condition_holds(val, pid, FilterOperator::GreaterOrEqual, f),
{
    let n = val.number_value->Some_0;
    lemma_key_injective(n, f);
}

} // verus!
