//! Grouping the rows of a table view by the value of one property.

use vstd::prelude::*;
use std::collections::HashMap;
use crate::filter::{lowercase, lowercase_text, increasing};
use crate::ids::{PropertyId, uuid_text};
use crate::number::{f64_key, f64_nan, is_nan, total_key};
use crate::property::{PropertyConfig, PropertyType, SelectOption};
use crate::sort::{RowPropertyValue, row_maps, Order, row_get, row_value, seq_order, char_codes, lemma_seq_order_flip, lemma_seq_order_trans, text_codes, option_position};
use crate::text::text_eq;
use crate::time::day_text;
use crate::view::{GroupCondition, text_set, distinct_texts, position_of_text};

verus! {

broadcast use vstd::std_specs::hash::group_hash_axioms;

/// The bits of `f64::MAX`.
pub const F64_MAX_BITS: u64 = 0x7FEF_FFFF_FFFF_FFFF;

/// The bits of `f64::NAN`.
pub const F64_NAN_BITS: u64 = 0x7FF8_0000_0000_0000;

/// Information about a single group for the frontend.
#[derive(Debug, Clone)]
pub struct GroupInfo {
    /// The group value (None = the group of rows without a value).
    pub value: Option<String>,
    /// Display label for the group.
    pub display_value: String,
    /// Number of rows in this group.
    pub count: usize,
    /// Whether this group is collapsed.
    pub is_collapsed: bool,
}

/// The key of the group a value falls in; the empty text for a missing
/// value. Texts are grouped case-insensitively, dates by calendar day.
pub open spec fn group_key(v: Option<RowPropertyValue>, t: PropertyType) -> Seq<char> {
    match v {
        None => Seq::empty(),
        Some(val) => match t {
            PropertyType::Text => match val.text_value {
                Some(s) => lowercase_text(s@),
                None => Seq::empty(),
            },
            PropertyType::Number => match (val.number_value, val.number_text) {
                (Some(_), Some(s)) => s@,
                _ => Seq::empty(),
            },
            PropertyType::Date => match val.date_value {
                Some(d) => day_text(d.spec_secs(), d.spec_nanos()),
                None => Seq::empty(),
            },
            PropertyType::Select => match val.text_value {
                Some(s) => s@,
                None => Seq::empty(),
            },
            PropertyType::Checkbox => match val.boolean_value {
                Some(b) => if b {
                    "true"@
                } else {
                    "false"@
                },
                None => Seq::empty(),
            },
        },
    }
}

/// The index of the last option whose ID text is `t`.
pub open spec fn last_option_with_id(options: Seq<SelectOption>, t: Seq<char>) -> Option<int> {
    if exists|i: int| 0 <= i < options.len() && uuid_text(options[i].id@) == t {
        Some(choose|i: int| 0 <= i < options.len() && uuid_text(options[i].id@) == t
            && forall|j: int| i < j < options.len() ==> uuid_text(options[j].id@) != t)
    } else {
        None
    }
}

/// The label shown for a group: "未設定" for the group without a value;
/// for a select property the option's value (or the key if no option has
/// that ID); for a checkbox "チェック済み" or "未チェック"; otherwise the key.
pub open spec fn display_of(k: Seq<char>, t: PropertyType, config: Option<PropertyConfig>) -> Seq<char> {
    if k.len() == 0 {
        "未設定"@
    } else {
        match t {
            PropertyType::Select => match config {
                Some(PropertyConfig::Select { options }) => match option_position(options@, k) {
                    Some(i) => options@[i].value@,
                    None => k,
                },
                _ => k,
            },
            PropertyType::Checkbox => if k == "true"@ {
                "チェック済み"@
            } else {
                "未チェック"@
            },
            _ => k,
        }
    }
}

/// The number a number group is ordered by: the value of its numbers, with
/// every NaN read as the positive quiet NaN.
pub open spec fn canonical_bits(b: u64) -> u64 {
    if f64_nan(b) {
        F64_NAN_BITS
    } else {
        b
    }
}

/// What a non-empty group key is ordered by, given the value of the first
/// row in the group: texts and dates by code points, numbers by IEEE 754
/// total order, select options by their (last) position among the options
/// with unknown IDs after all of them, and `"true"` before other checkbox
/// keys. Without select options all select groups rank equal.
pub open spec fn group_rank(
    k: Seq<char>,
    first: Option<RowPropertyValue>,
    t: PropertyType,
    config: Option<PropertyConfig>,
) -> Seq<i128> {
    match t {
        PropertyType::Text => char_codes(k),
        PropertyType::Date => char_codes(k),
        PropertyType::Number => match first {
            Some(val) => match val.number_value {
                Some(b) => seq![f64_key(canonical_bits(b)) as i128],
                None => seq![f64_key(F64_MAX_BITS) as i128],
            },
            None => seq![f64_key(F64_MAX_BITS) as i128],
        },
        PropertyType::Select => match config {
            Some(PropertyConfig::Select { options }) => match last_option_with_id(options@, k) {
                Some(p) => seq![p as i128],
                None => seq![usize::MAX as i128],
            },
            _ => Seq::empty(),
        },
        PropertyType::Checkbox => if k == "true"@ {
            seq![0i128]
        } else {
            seq![1i128]
        },
    }
}

/// Whether a group comes before another: groups with a value come before
/// the group without one; then by rank; then by first row.
pub open spec fn group_order_before(
    null_a: bool,
    rank_a: Seq<i128>,
    first_a: int,
    null_b: bool,
    rank_b: Seq<i128>,
    first_b: int,
) -> bool {
    if null_a != null_b {
        null_b
    } else {
        let o = seq_order(rank_a, rank_b);
        o == Order::Less || (o == Order::Equal && first_a < first_b)
    }
}

/// `group_order_before` is a strict total order on groups with different
/// first rows.
pub proof fn lemma_group_order(
    na: bool, ra: Seq<i128>, fa: int,
    nb: bool, rb: Seq<i128>, fb: int,
    nc: bool, rc: Seq<i128>, fc: int,
)
    ensures
        fa != fb ==> group_order_before(na, ra, fa, nb, rb, fb) != group_order_before(nb, rb, fb, na, ra, fa),
        group_order_before(na, ra, fa, nb, rb, fb) && group_order_before(nb, rb, fb, nc, rc, fc)
            ==> group_order_before(na, ra, fa, nc, rc, fc),
{
    lemma_seq_order_flip(ra, rb);
    if seq_order(ra, rb) != Order::Greater && seq_order(rb, rc) != Order::Greater {
        lemma_seq_order_trans(ra, rb, rc);
    }
}

/// Extracts the group key of a value (see [`group_key`]).
pub fn extract_group_key(v: Option<&RowPropertyValue>, property_type: PropertyType) -> (r: String)
    ensures
        r@ == group_key(
            match v {
                Some(x) => Some(*x),
                None => None,
            },
            property_type,
        ),
{
    let val = match v {
        Some(val) => val,
        None => return String::new(),
    };
    match property_type {
        PropertyType::Text => match &val.text_value {
            Some(s) => lowercase(s.as_str()),
            None => String::new(),
        },
        PropertyType::Number => match (val.number_value, &val.number_text) {
            (Some(_), Some(s)) => s.clone(),
            _ => String::new(),
        },
        PropertyType::Date => match val.date_value {
            Some(d) => d.day(),
            None => String::new(),
        },
        PropertyType::Select => match &val.text_value {
            Some(s) => s.clone(),
            None => String::new(),
        },
        PropertyType::Checkbox => match val.boolean_value {
            Some(b) => if b {
                String::from_str("true")
            } else {
                String::from_str("false")
            },
            None => String::new(),
        },
    }
}

/// The label shown for a group with the given key (see [`display_of`]).
#[verifier::loop_isolation(false)]
pub fn get_display_value(key: &str, property_type: PropertyType, config: Option<&PropertyConfig>) -> (r: String)
    ensures
        r@ == display_of(
            key@,
            property_type,
            match config {
                Some(c) => Some(*c),
                None => None,
            },
        ),
{
    if key.unicode_len() == 0 {
        return String::from_str("未設定");
    }
    match property_type {
        PropertyType::Select => {
            match config {
                Some(PropertyConfig::Select { options }) => {
                    let mut i: usize = 0;
                    while i < options.len()
                        invariant
                            i <= options@.len(),
                            forall|j: int| 0 <= j < i ==> uuid_text(options@[j].id@) != key@,
                        decreases options@.len() - i,
                    {
                        let id_text = options[i].id.to_string();
                        if text_eq(id_text.as_str(), key) {
                            proof {
                                assert(uuid_text(options@[i as int].id@) == key@);
                                assert(0 <= i < options@.len() && uuid_text(options@[i as int].id@) == key@
                                    && forall|j: int| 0 <= j < i ==> uuid_text(options@[j].id@) != key@);
                                let w = choose|w: int| 0 <= w < options@.len() && uuid_text(options@[w].id@)
                                    == key@ && forall|j: int| 0 <= j < w ==> uuid_text(options@[j].id@) != key@;
                                if w > i {
                                    assert(uuid_text(options@[i as int].id@) != key@);
                                }
                                if w < i {
                                    assert(uuid_text(options@[w].id@) != key@);
                                }
                                assert(w == i);
                                assert(option_position(options@, key@) == Some(i as int));
                            }
                            let v = options[i].value.clone();
                            assert(v@ == options@[i as int].value@);
                            return v;
                        }
                        i = i + 1;
                    }
                    String::from_str(key)
                },
                _ => String::from_str(key),
            }
        },
        PropertyType::Checkbox => {
            if text_eq(key, "true") {
                String::from_str("チェック済み")
            } else {
                String::from_str("未チェック")
            }
        },
        _ => String::from_str(key),
    }
}

/// What a group key is ordered by (see [`group_rank`]).
pub fn rank_of(
    key: &str,
    first: Option<&RowPropertyValue>,
    property_type: PropertyType,
    config: Option<&PropertyConfig>,
) -> (r: Vec<i128>)
    ensures
        r@ == group_rank(
            key@,
            match first {
                Some(x) => Some(*x),
                None => None,
            },
            property_type,
            match config {
                Some(c) => Some(*c),
                None => None,
            },
        ),
{
    match property_type {
        PropertyType::Text => text_codes(key),
        PropertyType::Date => text_codes(key),
        PropertyType::Number => {
            let bits = match first {
                Some(val) => match val.number_value {
                    Some(b) => if is_nan(b) {
                        F64_NAN_BITS
                    } else {
                        b
                    },
                    None => F64_MAX_BITS,
                },
                None => F64_MAX_BITS,
            };
            let mut r: Vec<i128> = Vec::new();
            r.push(total_key(bits));
            assert(r@ =~= seq![f64_key(bits) as i128]);
            r
        },
        PropertyType::Select => match config {
            Some(PropertyConfig::Select { options }) => {
                let mut found: Option<usize> = None;
                let mut i: usize = 0;
                while i < options.len()
                    invariant
                        i <= options@.len(),
                        match found {
                            Some(p) => p < i && uuid_text(options@[p as int].id@) == key@ && forall|j: int|
                                p < j < i ==> uuid_text(options@[j].id@) != key@,
                            None => forall|j: int| 0 <= j < i ==> uuid_text(options@[j].id@) != key@,
                        },
                    decreases options@.len() - i,
                {
                    let id_text = options[i].id.to_string();
                    if text_eq(id_text.as_str(), key) {
                        found = Some(i);
                    }
                    i = i + 1;
                }
                let mut r: Vec<i128> = Vec::new();
                match found {
                    Some(p) => {
                        proof {
                            assert(0 <= p < options@.len() && uuid_text(options@[p as int].id@) == key@
                                && forall|j: int| p < j < options@.len() ==> uuid_text(options@[j].id@) != key@);
                            let w = choose|w: int| 0 <= w < options@.len() && uuid_text(options@[w].id@)
                                == key@ && forall|j: int| w < j < options@.len() ==> uuid_text(options@[j].id@) != key@;
                            if w < p {
                                assert(uuid_text(options@[p as int].id@) != key@);
                            }
                            if w > p {
                                assert(uuid_text(options@[w].id@) != key@);
                            }
                        }
                        r.push(p as i128);
                        assert(r@ =~= seq![p as i128]);
                    },
                    None => {
                        r.push(usize::MAX as i128);
                        assert(r@ =~= seq![usize::MAX as i128]);
                    },
                }
                r
            },
            _ => {
                let r: Vec<i128> = Vec::new();
                assert(r@ =~= Seq::<i128>::empty());
                r
            },
        },
        PropertyType::Checkbox => {
            let mut r: Vec<i128> = Vec::new();
            if text_eq(key, "true") {
                r.push(0i128);
                assert(r@ =~= seq![0i128]);
            } else {
                r.push(1i128);
                assert(r@ =~= seq![1i128]);
            }
            r
        },
    }
}

/// The distinct keys in order of first appearance, the group of each row,
/// and the first row of each group.
fn collect_groups(keys: &Vec<String>) -> (r: (Vec<String>, Vec<usize>, Vec<usize>))
    ensures
        distinct_texts(r.0@),
        r.1@.len() == keys@.len(),
        forall|j: int| 0 <= j < keys@.len() ==> #[trigger] r.1@[j] < r.0@.len() && r.0@[r.1@[j] as int]@ == keys@[j]@,
        r.2@.len() == r.0@.len(),
        forall|g: int| 0 <= g < r.0@.len() ==> #[trigger] r.2@[g] < keys@.len() && keys@[r.2@[g] as int]@ == r.0@[g]@,
        forall|g: int, h: int| 0 <= g < h < r.0@.len() ==> r.2@[g] < r.2@[h],
        forall|j: int| 0 <= j < keys@.len() ==> r.2@[#[trigger] r.1@[j] as int] <= j,
{
    let mut order: Vec<String> = Vec::new();
    let mut group_of: Vec<usize> = Vec::new();
    let mut first: Vec<usize> = Vec::new();
    let mut i: usize = 0;
    while i < keys.len()
        invariant
            i <= keys@.len(),
            distinct_texts(order@),
            group_of@.len() == i,
            forall|j: int| 0 <= j < i ==> #[trigger] group_of@[j] < order@.len() && order@[group_of@[j] as int]@ == keys@[j]@,
            first@.len() == order@.len(),
            forall|g: int| 0 <= g < order@.len() ==> #[trigger] first@[g] < i && keys@[first@[g] as int]@ == order@[g]@,
            forall|g: int, h: int| 0 <= g < h < order@.len() ==> first@[g] < first@[h],
            forall|j: int| 0 <= j < i ==> first@[#[trigger] group_of@[j] as int] <= j,
        decreases keys@.len() - i,
    {
        let key = &keys[i];
        match position_of_text(order.as_slice(), key.as_str()) {
            Some(g) => {
                group_of.push(g);
            },
            None => {
                let ghost old_order = order@;
                let ghost old_first = first@;
                let g = order.len();
                order.push(key.clone());
                group_of.push(g);
                first.push(i);
                proof {
                    assert forall|a: int, b: int| 0 <= a < b < order@.len() implies order@[a]@ != order@[b]@ by {
                        if b == order@.len() - 1 {
                            assert(old_order[a]@ != key@);
                        } else {
                            assert(old_order[a] == order@[a] && old_order[b] == order@[b]);
                        }
                    }
                    assert forall|j: int| 0 <= j < i + 1 implies #[trigger] group_of@[j] < order@.len()
                        && order@[group_of@[j] as int]@ == keys@[j]@ by {
                        if j < i {
                            assert(order@[group_of@[j] as int] == old_order[group_of@[j] as int]);
                        }
                    }
                    assert forall|j: int| 0 <= j < i + 1 implies first@[#[trigger] group_of@[j] as int] <= j by {
                        if j < i {
                            assert(first@[group_of@[j] as int] == old_first[group_of@[j] as int]);
                        }
                    }
                    assert forall|q: int| 0 <= q < order@.len() implies #[trigger] first@[q] < i + 1
                        && keys@[first@[q] as int]@ == order@[q]@ by {
                        if q < old_order.len() {
                            assert(first@[q] == old_first[q] && order@[q] == old_order[q]);
                        }
                    }
                }
            },
        }
        i = i + 1;
    }
    (order, group_of, first)
}

/// Orders groups: each before the groups after it (see
/// [`group_order_before`]); `first` must increase with the group index.
fn order_groups(nulls: &Vec<bool>, ranks: &Vec<Vec<i128>>, first: &Vec<usize>) -> (r: Vec<usize>)
    requires
        nulls@.len() == ranks@.len(),
        first@.len() == ranks@.len(),
        forall|g: int, h: int| 0 <= g < h < first@.len() ==> first@[g] < first@[h],
    ensures
        r@.len() == ranks@.len(),
        forall|k: int| 0 <= k < r@.len() ==> r@[k] < ranks@.len(),
        forall|a: int, b: int| 0 <= a < b < r@.len() ==> r@[a] != r@[b],
        forall|g: int| 0 <= g < ranks@.len() ==> #[trigger] r@.contains(g as usize),
        forall|a: int, b: int| 0 <= a < b < r@.len() ==> group_order_before(
            nulls@[r@[a] as int],
            ranks@[r@[a] as int]@,
            first@[r@[a] as int] as int,
            nulls@[r@[b] as int],
            ranks@[r@[b] as int]@,
            first@[r@[b] as int] as int,
        ),
{
    let n = ranks.len();
    let mut out: Vec<usize> = Vec::new();
    let mut i: usize = 0;
    while i < n
        invariant
            n == ranks@.len(),
            nulls@.len() == n,
            first@.len() == n,
            forall|g: int, h: int| 0 <= g < h < n ==> first@[g] < first@[h],
            i <= n,
            out@.len() == i,
            forall|q: int| 0 <= q < out@.len() ==> out@[q] < i,
            forall|a: int, b: int| 0 <= a < b < out@.len() ==> out@[a] != out@[b],
            forall|g: int| 0 <= g < i ==> #[trigger] out@.contains(g as usize),
            forall|a: int, b: int| 0 <= a < b < out@.len() ==> group_order_before(
                nulls@[out@[a] as int],
                ranks@[out@[a] as int]@,
                first@[out@[a] as int] as int,
                nulls@[out@[b] as int],
                ranks@[out@[b] as int]@,
                first@[out@[b] as int] as int,
            ),
        decreases n - i,
    {
        let mut p: usize = 0;
        while p < out.len()
            invariant
                n == ranks@.len(),
                nulls@.len() == n,
                first@.len() == n,
                i < n,
                p <= out@.len(),
                forall|q: int| 0 <= q < out@.len() ==> out@[q] < i,
                forall|q: int| 0 <= q < p ==> !group_order_before(
                    nulls@[i as int],
                    ranks@[i as int]@,
                    first@[i as int] as int,
                    nulls@[out@[q] as int],
                    ranks@[out@[q] as int]@,
                    first@[out@[q] as int] as int,
                ),
            ensures
                p <= out@.len(),
                forall|q: int| 0 <= q < p ==> !group_order_before(
                    nulls@[i as int],
                    ranks@[i as int]@,
                    first@[i as int] as int,
                    nulls@[out@[q] as int],
                    ranks@[out@[q] as int]@,
                    first@[out@[q] as int] as int,
                ),
                p < out@.len() ==> group_order_before(
                    nulls@[i as int],
                    ranks@[i as int]@,
                    first@[i as int] as int,
                    nulls@[out@[p as int] as int],
                    ranks@[out@[p as int] as int]@,
                    first@[out@[p as int] as int] as int,
                ),
            decreases out@.len() - p,
        {
            let g = out[p];
            let ni = nulls[i];
            let ng = nulls[g];
            let before = if ni != ng {
                ng
            } else {
                let o = crate::sort::compare_seq(&ranks[i], &ranks[g]);
                match o {
                    Order::Less => true,
                    Order::Equal => first[i] < first[g],
                    Order::Greater => false,
                }
            };
            if before {
                break;
            }
            p = p + 1;
        }
        let ghost old_out = out@;
        out.insert(p, i);
        proof {
            assert(out@ =~= old_out.insert(p as int, i));
            assert forall|g: int| 0 <= g < i + 1 implies #[trigger] out@.contains(g as usize) by {
                if g < i {
                    assert(old_out.contains(g as usize));
                    let q = choose|q: int| 0 <= q < old_out.len() && old_out[q] == g as usize;
                    if q < p {
                        assert(out@[q] == old_out[q]);
                    } else {
                        assert(out@[q + 1] == old_out[q]);
                    }
                } else {
                    assert(out@[p as int] == i);
                }
            }
            assert forall|a: int, b: int| 0 <= a < b < out@.len() implies group_order_before(
                nulls@[out@[a] as int],
                ranks@[out@[a] as int]@,
                first@[out@[a] as int] as int,
                nulls@[out@[b] as int],
                ranks@[out@[b] as int]@,
                first@[out@[b] as int] as int,
            ) by {
                let x = i as int;
                if b < p {
                    assert(out@[a] == old_out[a] && out@[b] == old_out[b]);
                } else if b == p {
                    let y = old_out[a] as int;
                    assert(out@[a] == old_out[a]);
                    assert(first@[y] < first@[x]);
                    lemma_group_order(
                        nulls@[x], ranks@[x]@, first@[x] as int,
                        nulls@[y], ranks@[y]@, first@[y] as int,
                        nulls@[x], ranks@[x]@, first@[x] as int,
                    );
                } else if a == p {
                    let z = old_out[b - 1] as int;
                    assert(out@[b] == old_out[b - 1]);
                    if b - 1 > p {
                        let y = old_out[p as int] as int;
                        lemma_group_order(
                            nulls@[x], ranks@[x]@, first@[x] as int,
                            nulls@[y], ranks@[y]@, first@[y] as int,
                            nulls@[z], ranks@[z]@, first@[z] as int,
                        );
                    }
                } else if a < p {
                    assert(out@[a] == old_out[a] && out@[b] == old_out[b - 1]);
                } else {
                    assert(out@[a] == old_out[a - 1] && out@[b] == old_out[b - 1]);
                }
            }
        }
        i = i + 1;
    }
    out
}

/// The rows whose group is `g`, in increasing order.
fn rows_in_group(group_of: &Vec<usize>, g: usize) -> (r: Vec<usize>)
    ensures
        increasing(r@),
        forall|x: int| 0 <= x < r@.len() ==> #[trigger] r@[x] < group_of@.len(),
        forall|x: int| 0 <= x < r@.len() ==> group_of@[#[trigger] r@[x] as int] == g,
        forall|y: int| 0 <= y < group_of@.len() ==> (#[trigger] r@.contains(y as usize) <==> group_of@[y] == g),
{
    let n = group_of.len();
    let mut bucket: Vec<usize> = Vec::new();
    let mut j: usize = 0;
    while j < n
        invariant
            n == group_of@.len(),
            j <= n,
            increasing(bucket@),
            forall|x: int| 0 <= x < bucket@.len() ==> #[trigger] bucket@[x] < j,
            forall|x: int| 0 <= x < bucket@.len() ==> group_of@[#[trigger] bucket@[x] as int] == g,
            forall|y: int| 0 <= y < j ==> (#[trigger] bucket@.contains(y as usize) <==> group_of@[y] == g),
        decreases n - j,
    {
        let ghost old_bucket = bucket@;
        if group_of[j] == g {
            bucket.push(j);
        }
        proof {
            assert forall|y: int| 0 <= y < j + 1 implies (#[trigger] bucket@.contains(y as usize) <==> group_of@[y] == g) by {
                if bucket@.contains(y as usize) {
                    let x = choose|x: int| 0 <= x < bucket@.len() && bucket@[x] == y as usize;
                    if x < old_bucket.len() {
                        assert(old_bucket[x] == bucket@[x]);
                        assert(old_bucket.contains(y as usize));
                    }
                }
                if y < j && old_bucket.contains(y as usize) {
                    let x = choose|x: int| 0 <= x < old_bucket.len() && old_bucket[x] == y as usize;
                    assert(bucket@[x] == old_bucket[x]);
                }
                if y == j && group_of@[y] == g {
                    assert(bucket@[bucket@.len() - 1] == j);
                }
            }
        }
        j = j + 1;
    }
    bucket
}

/// The group key of every row.
pub open spec fn row_keys(
    rows: Seq<Map<u128, RowPropertyValue>>,
    pid: PropertyId,
    t: PropertyType,
) -> Seq<Seq<char>> {
    Seq::new(rows.len(), |i: int| group_key(row_get(rows[i], pid), t))
}

/// The key of a group: its value, or the empty text for the group without one.
pub open spec fn info_key(g: GroupInfo) -> Seq<char> {
    match g.value {
        Some(s) => s@,
        None => Seq::empty(),
    }
}

/// Whether some group has the key.
pub open spec fn has_group(groups: Seq<GroupInfo>, k: Seq<char>) -> bool {
    exists|g: int| 0 <= g < groups.len() && info_key(#[trigger] groups[g]) == k
}

/// What grouping returns: one group per distinct key, each with every row
/// of that key in input order; the groups ordered by
/// [`group_order_before`] (so the group without a value is last).
pub open spec fn groups_result(
    groups: Seq<GroupInfo>,
    grouped: Seq<Vec<usize>>,
    rows: Seq<Map<u128, RowPropertyValue>>,
    pid: PropertyId,
    t: PropertyType,
    config: Option<PropertyConfig>,
    collapsed: Set<Seq<char>>,
) -> bool {
    let ks = row_keys(rows, pid, t);
    &&& groups.len() == grouped.len()
    &&& forall|g: int| 0 <= g < groups.len() ==> {
        &&& (#[trigger] groups[g]).value matches Some(s) ==> s@.len() > 0
        &&& grouped[g]@.len() > 0
        &&& increasing(grouped[g]@)
        &&& forall|q: int| 0 <= q < grouped[g]@.len() ==> grouped[g]@[q] < rows.len()
        &&& forall|j: int| 0 <= j < rows.len() ==> (grouped[g]@.contains(j as usize) <==> ks[j] == info_key(groups[g]))
        &&& groups[g].count == grouped[g]@.len()
        &&& groups[g].display_value@ == display_of(info_key(groups[g]), t, config)
        &&& groups[g].is_collapsed == collapsed.contains(info_key(groups[g]))
    }
    &&& forall|a: int, b: int| 0 <= a < b < groups.len() ==> info_key(groups[a]) != info_key(groups[b])
    &&& forall|j: int| 0 <= j < rows.len() ==> #[trigger] has_group(groups, ks[j])
    &&& forall|a: int, b: int| 0 <= a < b < groups.len() ==> group_order_before(
        info_key(groups[a]).len() == 0,
        group_rank(info_key(groups[a]), row_get(rows[grouped[a]@[0] as int], pid), t, config),
        grouped[a]@[0] as int,
        info_key(groups[b]).len() == 0,
        group_rank(info_key(groups[b]), row_get(rows[grouped[b]@[0] as int], pid), t, config),
        grouped[b]@[0] as int,
    )
}

/// Groups rows by the value of the condition's property. Returns the groups
/// and, for each, the indices of its rows in input order.
pub fn compute_groups(
    row_values: &[HashMap<u128, RowPropertyValue>],
    condition: &GroupCondition,
    property_type: PropertyType,
    config: Option<&PropertyConfig>,
    collapsed_groups: &[String],
) -> (r: (Vec<GroupInfo>, Vec<Vec<usize>>))
    ensures
        groups_result(
            r.0@,
            r.1@,
            row_maps(row_values@),
            condition.property_id,
            property_type,
            match config {
                Some(c) => Some(*c),
                None => None,
            },
            text_set(collapsed_groups@),
        ),
{
    let pid = condition.property_id;
    let n = row_values.len();
    let ghost rows = row_maps(row_values@);
    let ghost cfg = match config {
        Some(c) => Some(*c),
        None => None,
    };
    let ghost ks = row_keys(rows, pid, property_type);
    let mut keys: Vec<String> = Vec::new();
    let mut i: usize = 0;
    while i < n
        invariant
            n == rows.len(),
            rows == row_maps(row_values@),
            ks == row_keys(rows, pid, property_type),
            i <= n,
            keys@.len() == i,
            forall|j: int| 0 <= j < i ==> #[trigger] keys@[j]@ == ks[j],
        decreases n - i,
    {
        let k = extract_group_key(row_value(&row_values[i], pid), property_type);
        keys.push(k);
        i = i + 1;
    }
    let (order, group_of, first) = collect_groups(&keys);
    let gn = order.len();
    let mut nulls: Vec<bool> = Vec::new();
    let mut ranks: Vec<Vec<i128>> = Vec::new();
    let mut g: usize = 0;
    while g < gn
        invariant
            n == rows.len(),
            rows == row_maps(row_values@),
            gn == order@.len(),
            first@.len() == gn,
            forall|q: int| 0 <= q < gn ==> #[trigger] first@[q] < keys@.len(),
            keys@.len() == n,
            cfg == match config {
                Some(c) => Some(*c),
                None => None,
            },
            g <= gn,
            nulls@.len() == g,
            ranks@.len() == g,
            forall|q: int| 0 <= q < g ==> #[trigger] nulls@[q] == (order@[q]@.len() == 0),
            forall|q: int| 0 <= q < g ==> #[trigger] ranks@[q]@ == group_rank(
                order@[q]@,
                row_get(rows[first@[q] as int], pid),
                property_type,
                cfg,
            ),
        decreases gn - g,
    {
        nulls.push(order[g].unicode_len() == 0);
        let fr = first[g];
        let rk = rank_of(order[g].as_str(), row_value(&row_values[fr], pid), property_type, config);
        ranks.push(rk);
        g = g + 1;
    }
    let sorted = order_groups(&nulls, &ranks, &first);
    let mut groups: Vec<GroupInfo> = Vec::new();
    let mut grouped: Vec<Vec<usize>> = Vec::new();
    let mut q: usize = 0;
    while q < gn
        invariant
            n == rows.len(),
            rows == row_maps(row_values@),
            ks == row_keys(rows, pid, property_type),
            keys@.len() == n,
            forall|j: int| 0 <= j < n ==> #[trigger] keys@[j]@ == ks[j],
            gn == order@.len(),
            distinct_texts(order@),
            group_of@.len() == n,
            forall|j: int| 0 <= j < n ==> #[trigger] group_of@[j] < gn && order@[group_of@[j] as int]@ == keys@[j]@,
            first@.len() == gn,
            forall|x: int| 0 <= x < gn ==> #[trigger] first@[x] < n && keys@[first@[x] as int]@ == order@[x]@,
            forall|j: int| 0 <= j < n ==> first@[#[trigger] group_of@[j] as int] <= j,
            nulls@.len() == gn,
            ranks@.len() == gn,
            forall|x: int| 0 <= x < gn ==> #[trigger] nulls@[x] == (order@[x]@.len() == 0),
            forall|x: int| 0 <= x < gn ==> #[trigger] ranks@[x]@ == group_rank(
                order@[x]@,
                row_get(rows[first@[x] as int], pid),
                property_type,
                cfg,
            ),
            cfg == match config {
                Some(c) => Some(*c),
                None => None,
            },
            sorted@.len() == gn,
            forall|k: int| 0 <= k < gn ==> sorted@[k] < gn,
            forall|x: int| 0 <= x < gn ==> #[trigger] sorted@.contains(x as usize),
            forall|a: int, b: int| 0 <= a < b < gn ==> sorted@[a] != sorted@[b],
            q <= gn,
            groups@.len() == q,
            grouped@.len() == q,
            forall|a: int| 0 <= a < q ==> info_key(#[trigger] groups@[a]) == order@[sorted@[a] as int]@,
            forall|a: int| 0 <= a < q ==> ((#[trigger] groups@[a]).value matches Some(s) ==> s@.len() > 0),
            forall|a: int| 0 <= a < q ==> (#[trigger] grouped@[a])@.len() > 0 && grouped@[a]@[0] == first@[sorted@[a] as int],
            forall|a: int| 0 <= a < q ==> increasing(#[trigger] grouped@[a]@),
            forall|a: int, x: int| 0 <= a < q && 0 <= x < grouped@[a]@.len() ==> #[trigger] grouped@[a]@[x] < n,
            forall|a: int, j: int| 0 <= a < q && 0 <= j < n ==> (#[trigger] grouped@[a]@.contains(j as usize) <==> ks[j] == info_key(groups@[a])),
            forall|a: int| 0 <= a < q ==> (#[trigger] groups@[a]).count == grouped@[a]@.len(),
            forall|a: int| 0 <= a < q ==> (#[trigger] groups@[a]).display_value@ == display_of(info_key(groups@[a]), property_type, cfg),
            forall|a: int| 0 <= a < q ==> (#[trigger] groups@[a]).is_collapsed == text_set(collapsed_groups@).contains(info_key(groups@[a])),
        decreases gn - q,
    {
        let g = sorted[q];
        let ghost key_g = order@[g as int]@;
        let bucket = rows_in_group(&group_of, g);
        proof {
            let f = first@[g as int];
            assert(order@[group_of@[f as int] as int]@ == order@[g as int]@);
            assert(group_of@[f as int] == g);
            assert(bucket@.contains((f as int) as usize));
            let x = choose|x: int| 0 <= x < bucket@.len() && bucket@[x] == f;
            assert(first@[group_of@[bucket@[0] as int] as int] <= bucket@[0]);
            if x > 0 {
                assert(bucket@[0] < bucket@[x]);
            }
            assert(bucket@[0] == f);
            assert forall|y: int| 0 <= y < n implies (bucket@.contains(y as usize) <==> ks[y] == key_g) by {
                if ks[y] == key_g {
                    assert(order@[group_of@[y] as int]@ == order@[g as int]@);
                }
            }
        }
        let key = &order[g];
        let is_null = nulls[g];
        let display_value = get_display_value(key.as_str(), property_type, config);
        let is_collapsed = match position_of_text(collapsed_groups, key.as_str()) {
            Some(_) => true,
            None => false,
        };
        proof {
            if text_set(collapsed_groups@).contains(key_g) {
                let w = choose|w: int| 0 <= w < collapsed_groups@.len() && collapsed_groups@[w]@ == key_g;
                assert(collapsed_groups@[w]@ == key_g);
            }
        }
        let value = if is_null {
            None
        } else {
            Some(key.clone())
        };
        let count = bucket.len();
        let info = GroupInfo { value, display_value, count, is_collapsed };
        assert(info_key(info) == key_g);
        groups.push(info);
        grouped.push(bucket);
        proof {
            assert(groups@[q as int] == info);
        }
        q = q + 1;
    }
    proof {
        assert forall|a: int, b: int| 0 <= a < b < groups@.len() implies info_key(groups@[a]) != info_key(groups@[b]) by {
            assert(info_key(groups@[a]) == order@[sorted@[a] as int]@);
            assert(info_key(groups@[b]) == order@[sorted@[b] as int]@);
            if sorted@[a] < sorted@[b] {
                assert(order@[sorted@[a] as int]@ != order@[sorted@[b] as int]@);
            } else {
                assert(order@[sorted@[b] as int]@ != order@[sorted@[a] as int]@);
            }
        }
        assert forall|j: int| 0 <= j < n implies #[trigger] has_group(groups@, ks[j]) by {
            let g = group_of@[j];
            assert(sorted@.contains((g as int) as usize));
            let a = choose|a: int| 0 <= a < sorted@.len() && sorted@[a] == g;
            assert(info_key(groups@[a]) == order@[g as int]@);
        }
        assert forall|a: int, b: int| 0 <= a < b < groups@.len() implies group_order_before(
            info_key(groups@[a]).len() == 0,
            group_rank(info_key(groups@[a]), row_get(rows[grouped@[a]@[0] as int], pid), property_type, cfg),
            grouped@[a]@[0] as int,
            info_key(groups@[b]).len() == 0,
            group_rank(info_key(groups@[b]), row_get(rows[grouped@[b]@[0] as int], pid), property_type, cfg),
            grouped@[b]@[0] as int,
        ) by {
            let ga = sorted@[a] as int;
            let gb = sorted@[b] as int;
            assert(nulls@[ga] == (order@[ga]@.len() == 0));
            assert(nulls@[gb] == (order@[gb]@.len() == 0));
            assert(ranks@[ga]@ == group_rank(order@[ga]@, row_get(rows[first@[ga] as int], pid), property_type, cfg));
            assert(ranks@[gb]@ == group_rank(order@[gb]@, row_get(rows[first@[gb] as int], pid), property_type, cfg));
        }
    }
    (groups, grouped)
}

/// Every row is in exactly one group, the group of its key.
pub proof fn law_rows_partitioned(
    groups: Seq<GroupInfo>,
    grouped: Seq<Vec<usize>>,
    rows: Seq<Map<u128, RowPropertyValue>>,
    pid: PropertyId,
    t: PropertyType,
    config: Option<PropertyConfig>,
    collapsed: Set<Seq<char>>,
    j: int,
)
    requires
        groups_result(groups, grouped, rows, pid, t, config, collapsed),
        0 <= j < rows.len(),
    ensures
        exists|g: int| 0 <= g < groups.len() && #[trigger] grouped[g]@.contains(j as usize),
        forall|g: int, h: int| 0 <= g < groups.len() && 0 <= h < groups.len() && grouped[g]@.contains(
            j as usize,
        ) && grouped[h]@.contains(j as usize) ==> g == h,
{
    let ks = row_keys(rows, pid, t);
    assert(has_group(groups, ks[j]));
    let g = choose|g: int| 0 <= g < groups.len() && info_key(#[trigger] groups[g]) == ks[j];
    assert(grouped[g]@.contains(j as usize));
    assert forall|g: int, h: int| 0 <= g < groups.len() && 0 <= h < groups.len() && grouped[g]@.contains(
        j as usize,
    ) && grouped[h]@.contains(j as usize) implies g == h by {
        assert(info_key(groups[g]) == ks[j]);
        assert(info_key(groups[h]) == ks[j]);
        if g < h {
            assert(info_key(groups[g]) != info_key(groups[h]));
        } else if h < g {
            assert(info_key(groups[h]) != info_key(groups[g]));
        }
    }
}

/// The group of rows without a value, if there is one, is the last group.
pub proof fn law_null_group_last(
    groups: Seq<GroupInfo>,
    grouped: Seq<Vec<usize>>,
    rows: Seq<Map<u128, RowPropertyValue>>,
    pid: PropertyId,
    t: PropertyType,
    config: Option<PropertyConfig>,
    collapsed: Set<Seq<char>>,
    g: int,
)
    requires
        groups_result(groups, grouped, rows, pid, t, config, collapsed),
        0 <= g < groups.len(),
        groups[g].value is None,
    ensures
        g == groups.len() - 1,
        groups[g].display_value@ == "未設定"@,
{
    if g < groups.len() - 1 {
        let h = g + 1;
        if groups[h].value is None {
            assert(info_key(groups[g]) == info_key(groups[h]));
        } else {
            let s = groups[h].value->Some_0;
            assert(s@.len() > 0);
        }
    }
}

/// Date groups come in ascending order of their day key: when grouping by a
/// date property, of two groups with a value, the one whose key (the
/// `YYYY-MM-DD` text of its day) is smaller by code points comes first,
/// whatever the order of the rows.
pub proof fn law_date_groups_ascending(
    groups: Seq<GroupInfo>,
    grouped: Seq<Vec<usize>>,
    rows: Seq<Map<u128, RowPropertyValue>>,
    pid: PropertyId,
    config: Option<PropertyConfig>,
    collapsed: Set<Seq<char>>,
    a: int,
    b: int,
)
    requires
        groups_result(groups, grouped, rows, pid, PropertyType::Date, config, collapsed),
        0 <= a < groups.len(),
        0 <= b < groups.len(),
        groups[a].value is Some,
        groups[b].value is Some,
        seq_order(char_codes(info_key(groups[a])), char_codes(info_key(groups[b]))) == Order::Less,
    ensures
        a < b,
{
    let ka = info_key(groups[a]);
    let kb = info_key(groups[b]);
    assert(ka.len() > 0);
    assert(kb.len() > 0);
    lemma_seq_order_flip(char_codes(ka), char_codes(kb));
    if b < a {
        assert(group_order_before(
            kb.len() == 0,
            group_rank(kb, row_get(rows[grouped[b]@[0] as int], pid), PropertyType::Date, config),
            grouped[b]@[0] as int,
            ka.len() == 0,
            group_rank(ka, row_get(rows[grouped[a]@[0] as int], pid), PropertyType::Date, config),
            grouped[a]@[0] as int,
        ));
    }
}

} // verus!
