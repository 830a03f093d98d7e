//! Ordering the rows of a table view by its sort conditions.

use vstd::prelude::*;
use std::collections::HashMap;
use crate::ids::{PropertyId, uuid_text};
use crate::number::{f64_key, total_key};
use crate::property::{PropertyConfig, PropertyType, SelectOption};
use crate::text::text_eq;
use crate::time::Timestamp;
use crate::view::{SortCondition, SortDirection};

verus! {

broadcast use vstd::std_specs::hash::group_hash_axioms;

/// The value of one property in one row, as the view logic reads it. A
/// number is held as the bit pattern of an IEEE 754 double, beside the text
/// that `f64`'s `Display` writes for it.
#[derive(Debug, Clone)]
pub struct RowPropertyValue {
    /// The text value, if any.
    pub text_value: Option<String>,
    /// The number value (bits of an `f64`), if any.
    pub number_value: Option<u64>,
    /// The display text of the number value, if any.
    pub number_text: Option<String>,
    /// The date value, if any.
    pub date_value: Option<Timestamp>,
    /// The boolean value, if any.
    pub boolean_value: Option<bool>,
}

/// Property metadata needed for type-aware sorting.
#[derive(Debug, Clone)]
pub struct SortPropertyInfo {
    /// The property type.
    pub property_type: PropertyType,
    /// The property config (needed for Select position ordering).
    pub config: Option<PropertyConfig>,
}

/// The value a row holds for a property, if it holds one.
pub open spec fn row_get(row: Map<u128, RowPropertyValue>, pid: PropertyId) -> Option<RowPropertyValue> {
    if row.contains_key(pid@) {
        Some(row[pid@])
    } else {
        None
    }
}

/// The property values of each row.
pub open spec fn row_maps(rows: Seq<HashMap<u128, RowPropertyValue>>) -> Seq<Map<u128, RowPropertyValue>> {
    rows.map_values(|h: HashMap<u128, RowPropertyValue>| h@)
}

/// Looks up the value a row holds for a property.
pub fn row_value<'a>(row: &'a HashMap<u128, RowPropertyValue>, pid: PropertyId) -> (r: Option<&'a RowPropertyValue>)
    ensures
        match r {
            Some(v) => row_get(row@, pid) == Some(*v),
            None => row_get(row@, pid) is None,
        },
{
    row.get(&pid.as_uuid())
}

/// A row as the sort engine sees it: its position in the input and its
/// property values keyed by property UUID.
pub struct SortableRow<'a> {
    /// Index into the original row vector, used to keep equal rows in order.
    pub index: usize,
    /// Property values keyed by property UUID.
    pub values: &'a HashMap<u128, RowPropertyValue>,
}

/// The result of comparing two rows or keys.
#[derive(Debug, Clone, Copy, PartialEq, Eq, Structural)]
pub enum Order {
    /// The first sorts before the second.
    Less,
    /// Neither sorts before the other.
    Equal,
    /// The first sorts after the second.
    Greater,
}

/// The opposite order.
pub open spec fn flip(o: Order) -> Order {
    match o {
        Order::Less => Order::Greater,
        Order::Equal => Order::Equal,
        Order::Greater => Order::Less,
    }
}

/// Lexicographic order of integer sequences; a proper prefix comes first.
pub open spec fn seq_order(a: Seq<i128>, b: Seq<i128>) -> Order
    decreases a.len(),
{
    if a.len() == 0 {
        if b.len() == 0 {
            Order::Equal
        } else {
            Order::Less
        }
    } else if b.len() == 0 {
        Order::Greater
    } else if a[0] < b[0] {
        Order::Less
    } else if a[0] > b[0] {
        Order::Greater
    } else {
        seq_order(a.drop_first(), b.drop_first())
    }
}

/// Order of optional keys: present keys by `seq_order`, missing keys last.
pub open spec fn key_order(a: Option<Seq<i128>>, b: Option<Seq<i128>>) -> Order {
    match (a, b) {
        (Some(x), Some(y)) => seq_order(x, y),
        (Some(_), None) => Order::Less,
        (None, Some(_)) => Order::Greater,
        (None, None) => Order::Equal,
    }
}

/// An order as seen in the given direction.
pub open spec fn directed(o: Order, d: SortDirection) -> Order {
    match d {
        SortDirection::Ascending => o,
        SortDirection::Descending => flip(o),
    }
}

/// The code points of a text.
pub open spec fn char_codes(s: Seq<char>) -> Seq<i128> {
    s.map_values(|c: char| (c as u32) as i128)
}

/// The index of the first option whose ID text is `t`.
pub open spec fn option_position(options: Seq<SelectOption>, t: Seq<char>) -> Option<int> {
    if exists|i: int| 0 <= i < options.len() && uuid_text(options[i].id@) == t {
        Some(choose|i: int| 0 <= i < options.len() && uuid_text(options[i].id@) == t
            && forall|j: int| 0 <= j < i ==> uuid_text(options[j].id@) != t)
    } else {
        None
    }
}

/// The non-empty text of a value, if it has one.
pub open spec fn nonempty_text(v: Option<RowPropertyValue>) -> Option<Seq<char>> {
    match v {
        Some(val) => match val.text_value {
            Some(t) => if t@.len() > 0 {
                Some(t@)
            } else {
                None
            },
            None => None,
        },
        None => None,
    }
}

/// What a value is sorted by, for a property of the given kind: a text by
/// its code points (the empty text counts as missing), a number by IEEE 754
/// total order, a date by instant, a select option by its position among the
/// options (an unknown option counts as missing), a checkbox with `false`
/// first. A select property without options sorts all rows as equal.
pub open spec fn sort_key(v: Option<RowPropertyValue>, info: SortPropertyInfo) -> Option<Seq<i128>> {
    match info.property_type {
        PropertyType::Text => match nonempty_text(v) {
            Some(t) => Some(char_codes(t)),
            None => None,
        },
        PropertyType::Number => match v {
            Some(val) => match val.number_value {
                Some(n) => Some(seq![f64_key(n) as i128]),
                None => None,
            },
            None => None,
        },
        PropertyType::Date => match v {
            Some(val) => match val.date_value {
                Some(d) => Some(seq![d.spec_secs() as i128, d.spec_nanos() as i128]),
                None => None,
            },
            None => None,
        },
        PropertyType::Select => match info.config {
            Some(PropertyConfig::Select { options }) => match nonempty_text(v) {
                Some(t) => match option_position(options@, t) {
                    Some(p) => Some(seq![p as i128]),
                    None => None,
                },
                None => None,
            },
            _ => Some(Seq::<i128>::empty()),
        },
        PropertyType::Checkbox => match v {
            Some(val) => match val.boolean_value {
                Some(b) => Some(seq![if b { 1i128 } else { 0i128 }]),
                None => None,
            },
            None => None,
        },
    }
}

/// How two rows compare on one sort condition; a property without sort
/// information compares equal.
pub open spec fn condition_order(
    a: Map<u128, RowPropertyValue>,
    b: Map<u128, RowPropertyValue>,
    c: SortCondition,
    infos: Map<u128, SortPropertyInfo>,
) -> Order {
    if infos.contains_key(c.property_id@) {
        directed(
            key_order(
                sort_key(row_get(a, c.property_id), infos[c.property_id@]),
                sort_key(row_get(b, c.property_id), infos[c.property_id@]),
            ),
            c.direction,
        )
    } else {
        Order::Equal
    }
}

/// How two rows compare: by the first condition on which they differ.
pub open spec fn rows_order(
    a: Map<u128, RowPropertyValue>,
    b: Map<u128, RowPropertyValue>,
    conds: Seq<SortCondition>,
    infos: Map<u128, SortPropertyInfo>,
) -> Order
    decreases conds.len(),
{
    if conds.len() == 0 {
        Order::Equal
    } else {
        let o = condition_order(a, b, conds[0], infos);
        if o != Order::Equal {
            o
        } else {
            rows_order(a, b, conds.drop_first(), infos)
        }
    }
}

/// Whether row `i` comes before row `j`: it sorts before it, or they sort
/// equal and `i` came first.
pub open spec fn row_before(
    rows: Seq<Map<u128, RowPropertyValue>>,
    conds: Seq<SortCondition>,
    infos: Map<u128, SortPropertyInfo>,
    i: int,
    j: int,
) -> bool {
    let o = rows_order(rows[i], rows[j], conds, infos);
    o == Order::Less || (o == Order::Equal && i < j)
}

/// What the sort returns: every row index once, each row before the rows
/// after it.
pub open spec fn sort_result(
    r: Seq<usize>,
    rows: Seq<Map<u128, RowPropertyValue>>,
    conds: Seq<SortCondition>,
    infos: Map<u128, SortPropertyInfo>,
) -> bool {
    &&& r.len() == rows.len()
    &&& forall|k: int| 0 <= k < r.len() ==> r[k] < rows.len()
    &&& forall|a: int, b: int| 0 <= a < b < r.len() ==> r[a] != r[b]
    &&& forall|j: int| 0 <= j < rows.len() ==> #[trigger] r.contains(j as usize)
    &&& forall|a: int, b: int| 0 <= a < b < r.len() ==> row_before(rows, conds, infos, r[a] as int, r[b] as int)
}

/// `seq_order` is antisymmetric, and equal only on equal sequences.
pub proof fn lemma_seq_order_flip(a: Seq<i128>, b: Seq<i128>)
    ensures
        seq_order(b, a) == flip(seq_order(a, b)),
        seq_order(a, b) == Order::Equal <==> a == b,
    decreases a.len(),
{
    if a.len() > 0 && b.len() > 0 {
        lemma_seq_order_flip(a.drop_first(), b.drop_first());
        if a[0] == b[0] && a.drop_first() == b.drop_first() {
            assert(a =~= seq![a[0]] + a.drop_first());
            assert(b =~= seq![b[0]] + b.drop_first());
        }
    }
    if a.len() == 0 && b.len() == 0 {
        assert(a =~= b);
    }
}

/// `seq_order` is transitive.
pub proof fn lemma_seq_order_trans(a: Seq<i128>, b: Seq<i128>, c: Seq<i128>)
    requires
        seq_order(a, b) != Order::Greater,
        seq_order(b, c) != Order::Greater,
    ensures
        seq_order(a, c) != Order::Greater,
        seq_order(a, c) == Order::Equal ==> seq_order(a, b) == Order::Equal && seq_order(b, c)
            == Order::Equal,
    decreases a.len(),
{
    if a.len() > 0 && b.len() > 0 && c.len() > 0 && a[0] == b[0] && b[0] == c[0] {
        lemma_seq_order_trans(a.drop_first(), b.drop_first(), c.drop_first());
    }
}

/// `key_order` is antisymmetric and transitive.
pub proof fn lemma_key_order(a: Option<Seq<i128>>, b: Option<Seq<i128>>, c: Option<Seq<i128>>)
    ensures
        key_order(b, a) == flip(key_order(a, b)),
        key_order(a, b) != Order::Greater && key_order(b, c) != Order::Greater ==> key_order(a, c)
            != Order::Greater && (key_order(a, c) == Order::Equal ==> key_order(a, b)
            == Order::Equal && key_order(b, c) == Order::Equal),
{
    if let (Some(x), Some(y)) = (a, b) {
        lemma_seq_order_flip(x, y);
    }
    if let (Some(x), Some(y), Some(z)) = (a, b, c) {
        if seq_order(x, y) != Order::Greater && seq_order(y, z) != Order::Greater {
            lemma_seq_order_trans(x, y, z);
        }
    }
}

/// `rows_order` is antisymmetric and transitive.
pub proof fn lemma_rows_order(
    a: Map<u128, RowPropertyValue>,
    b: Map<u128, RowPropertyValue>,
    c: Map<u128, RowPropertyValue>,
    conds: Seq<SortCondition>,
    infos: Map<u128, SortPropertyInfo>,
)
    ensures
        rows_order(b, a, conds, infos) == flip(rows_order(a, b, conds, infos)),
        rows_order(a, b, conds, infos) != Order::Greater && rows_order(b, c, conds, infos)
            != Order::Greater ==> rows_order(a, c, conds, infos) != Order::Greater && (rows_order(
            a,
            c,
            conds,
            infos,
        ) == Order::Equal ==> rows_order(a, b, conds, infos) == Order::Equal && rows_order(
            b,
            c,
            conds,
            infos,
        ) == Order::Equal),
    decreases conds.len(),
{
    if conds.len() > 0 {
        let k = conds[0];
        lemma_rows_order(a, b, c, conds.drop_first(), infos);
        if infos.contains_key(k.property_id@) {
            let info = infos[k.property_id@];
            let ka = sort_key(row_get(a, k.property_id), info);
            let kb = sort_key(row_get(b, k.property_id), info);
            let kc = sort_key(row_get(c, k.property_id), info);
            lemma_key_order(ka, kb, kc);
            lemma_key_order(kc, kb, ka);
            lemma_key_order(ka, kc, kb);
        }
    }
}

/// `row_before` is a strict total order on distinct indices.
pub proof fn lemma_row_before(
    rows: Seq<Map<u128, RowPropertyValue>>,
    conds: Seq<SortCondition>,
    infos: Map<u128, SortPropertyInfo>,
    i: int,
    j: int,
    k: int,
)
    requires
        0 <= i < rows.len(),
        0 <= j < rows.len(),
        0 <= k < rows.len(),
    ensures
        i != j ==> (row_before(rows, conds, infos, i, j) != row_before(rows, conds, infos, j, i)),
        row_before(rows, conds, infos, i, j) && row_before(rows, conds, infos, j, k) ==> row_before(
            rows,
            conds,
            infos,
            i,
            k,
        ),
{
    lemma_rows_order(rows[i], rows[j], rows[k], conds, infos);
}

/// The view of an optional key vector.
pub open spec fn key_view(k: Option<Vec<i128>>) -> Option<Seq<i128>> {
    match k {
        Some(v) => Some(v@),
        None => None,
    }
}

pub(crate) fn compare_seq(a: &Vec<i128>, b: &Vec<i128>) -> (r: Order)
    ensures
        r == seq_order(a@, b@),
{
    let mut i: usize = 0;
    assert(a@.skip(0) =~= a@ && b@.skip(0) =~= b@);
    while i < a.len() && i < b.len()
        invariant
            i <= a@.len(),
            i <= b@.len(),
            seq_order(a@, b@) == seq_order(a@.skip(i as int), b@.skip(i as int)),
        decreases a@.len() - i,
    {
        if a[i] < b[i] {
            return Order::Less;
        }
        if a[i] > b[i] {
            return Order::Greater;
        }
        assert(a@.skip(i as int).drop_first() =~= a@.skip(i + 1));
        assert(b@.skip(i as int).drop_first() =~= b@.skip(i + 1));
        i = i + 1;
    }
    if i < a.len() {
        Order::Greater
    } else if i < b.len() {
        Order::Less
    } else {
        Order::Equal
    }
}

fn compare_keys(a: &Option<Vec<i128>>, b: &Option<Vec<i128>>) -> (r: Order)
    ensures
        r == key_order(key_view(*a), key_view(*b)),
{
    match (a, b) {
        (Some(x), Some(y)) => compare_seq(x, y),
        (Some(_), None) => Order::Less,
        (None, Some(_)) => Order::Greater,
        (None, None) => Order::Equal,
    }
}

/// The code points of a text, as a vector.
pub(crate) fn text_codes(s: &str) -> (r: Vec<i128>)
    ensures
        r@ == char_codes(s@),
{
    let n = s.unicode_len();
    let mut out: Vec<i128> = Vec::new();
    let mut i: usize = 0;
    while i < n
        invariant
            n == s@.len(),
            i <= n,
            out@ == char_codes(s@.take(i as int)),
        decreases n - i,
    {
        let c = s.get_char(i);
        out.push((c as u32) as i128);
        assert(char_codes(s@.take(i + 1)) =~= char_codes(s@.take(i as int)).push((c as u32) as i128));
        i = i + 1;
    }
    assert(s@.take(n as int) =~= s@);
    out
}

/// The index of the first option whose ID text is `t`.
fn find_option_position(options: &Vec<SelectOption>, t: &str) -> (r: Option<usize>)
    ensures
        match r {
            Some(p) => option_position(options@, t@) == Some(p as int),
            None => option_position(options@, t@) is None,
        },
{
    let mut i: usize = 0;
    while i < options.len()
        invariant
            i <= options@.len(),
            forall|j: int| 0 <= j < i ==> uuid_text(options@[j].id@) != t@,
        decreases options@.len() - i,
    {
        let id_text = options[i].id.to_string();
        if text_eq(id_text.as_str(), t) {
            proof {
                let w = choose|w: int| 0 <= w < options@.len() && uuid_text(options@[w].id@) == t@
                    && forall|j: int| 0 <= j < w ==> uuid_text(options@[j].id@) != t@;
                assert(0 <= i < options@.len() && uuid_text(options@[i as int].id@) == t@);
                if w < i {
                } else if w > i {
                    assert(uuid_text(options@[i as int].id@) != t@);
                }
            }
            return Some(i);
        }
        i = i + 1;
    }
    None
}

/// Computes what a value is sorted by (see [`sort_key`]).
pub fn value_sort_key(v: Option<&RowPropertyValue>, info: &SortPropertyInfo) -> (r: Option<Vec<i128>>)
    ensures
        key_view(r) == sort_key(
            match v {
                Some(x) => Some(*x),
                None => None,
            },
            *info,
        ),
{
    let text: Option<&String> = match v {
        Some(val) => match &val.text_value {
            Some(t) => if t.unicode_len() > 0 {
                Some(t)
            } else {
                None
            },
            None => None,
        },
        None => None,
    };
    match info.property_type {
        PropertyType::Text => match text {
            Some(t) => Some(text_codes(t.as_str())),
            None => None,
        },
        PropertyType::Number => match v {
            Some(val) => match val.number_value {
                Some(n) => {
                    let mut k: Vec<i128> = Vec::new();
                    k.push(total_key(n));
                    assert(k@ =~= seq![f64_key(n) as i128]);
                    Some(k)
                },
                None => None,
            },
            None => None,
        },
        PropertyType::Date => match v {
            Some(val) => match val.date_value {
                Some(d) => {
                    let mut k: Vec<i128> = Vec::new();
                    k.push(d.secs() as i128);
                    k.push(d.nanos() as i128);
                    assert(k@ =~= seq![d.spec_secs() as i128, d.spec_nanos() as i128]);
                    Some(k)
                },
                None => None,
            },
            None => None,
        },
        PropertyType::Select => match &info.config {
            Some(PropertyConfig::Select { options }) => match text {
                Some(t) => match find_option_position(options, t.as_str()) {
                    Some(p) => {
                        let mut k: Vec<i128> = Vec::new();
                        k.push(p as i128);
                        assert(k@ =~= seq![p as i128]);
                        Some(k)
                    },
                    None => None,
                },
                None => None,
            },
            _ => {
                let k: Vec<i128> = Vec::new();
                assert(k@ =~= Seq::<i128>::empty());
                Some(k)
            },
        },
        PropertyType::Checkbox => match v {
            Some(val) => match val.boolean_value {
                Some(b) => {
                    let mut k: Vec<i128> = Vec::new();
                    k.push(if b { 1i128 } else { 0i128 });
                    assert(k@ =~= seq![if b { 1i128 } else { 0i128 }]);
                    Some(k)
                },
                None => None,
            },
            None => None,
        },
    }
}

/// Whether `keys` holds, for each condition with sort information, what the
/// row is sorted by.
pub open spec fn keys_of(
    keys: Seq<Option<Vec<i128>>>,
    row: Map<u128, RowPropertyValue>,
    conds: Seq<SortCondition>,
    infos: Map<u128, SortPropertyInfo>,
) -> bool {
    &&& keys.len() == conds.len()
    &&& forall|k: int| 0 <= k < conds.len() && infos.contains_key(conds[k].property_id@) ==> key_view(
        #[trigger] keys[k],
    ) == sort_key(row_get(row, conds[k].property_id), infos[conds[k].property_id@])
}

fn compare_rows(
    ka: &Vec<Option<Vec<i128>>>,
    kb: &Vec<Option<Vec<i128>>>,
    conds: &[SortCondition],
    has: &Vec<bool>,
    Ghost(a): Ghost<Map<u128, RowPropertyValue>>,
    Ghost(b): Ghost<Map<u128, RowPropertyValue>>,
    Ghost(infos): Ghost<Map<u128, SortPropertyInfo>>,
) -> (r: Order)
    requires
        keys_of(ka@, a, conds@, infos),
        keys_of(kb@, b, conds@, infos),
        has@.len() == conds@.len(),
        forall|k: int| 0 <= k < conds@.len() ==> has@[k] == infos.contains_key(#[trigger] conds@[k].property_id@),
    ensures
        r == rows_order(a, b, conds@, infos),
{
    let m = conds.len();
    let mut k: usize = 0;
    assert(conds@.skip(0) =~= conds@);
    while k < m
        invariant
            m == conds@.len(),
            k <= m,
            keys_of(ka@, a, conds@, infos),
            keys_of(kb@, b, conds@, infos),
            has@.len() == conds@.len(),
            forall|q: int| 0 <= q < conds@.len() ==> has@[q] == infos.contains_key(#[trigger] conds@[q].property_id@),
            rows_order(a, b, conds@, infos) == rows_order(a, b, conds@.skip(k as int), infos),
        decreases m - k,
    {
        let o = if has[k] {
            let raw = compare_keys(&ka[k], &kb[k]);
            match conds[k].direction {
                SortDirection::Ascending => raw,
                SortDirection::Descending => match raw {
                    Order::Less => Order::Greater,
                    Order::Equal => Order::Equal,
                    Order::Greater => Order::Less,
                },
            }
        } else {
            Order::Equal
        };
        proof {
            assert(conds@.skip(k as int)[0] == conds@[k as int]);
            assert(conds@.skip(k as int).drop_first() =~= conds@.skip(k + 1));
            assert(o == condition_order(a, b, conds@[k as int], infos));
        }
        if o != Order::Equal {
            return o;
        }
        k = k + 1;
    }
    Order::Equal
}

/// Orders rows by the sort conditions (primary first) and returns the row
/// indices in that order. Rows that compare equal on every condition keep
/// their input order; with no condition the order is the input order.
pub fn compute_sort_order(
    row_values: &[HashMap<u128, RowPropertyValue>],
    conditions: &[SortCondition],
    property_info: &HashMap<u128, SortPropertyInfo>,
) -> (r: Vec<usize>)
    ensures
        sort_result(r@, row_maps(row_values@), conditions@, property_info@),
{
    let n = row_values.len();
    let m = conditions.len();
    let ghost infos = property_info@;
    let ghost rows = row_maps(row_values@);
    let ghost conds = conditions@;
    let mut has: Vec<bool> = Vec::new();
    let mut k: usize = 0;
    while k < m
        invariant
            m == conds.len(),
            conds == conditions@,
            infos == property_info@,
            k <= m,
            has@.len() == k,
            forall|q: int| 0 <= q < k ==> has@[q] == infos.contains_key(#[trigger] conds[q].property_id@),
        decreases m - k,
    {
        let found = match property_info.get(&conditions[k].property_id.as_uuid()) {
            Some(_) => true,
            None => false,
        };
        has.push(found);
        k = k + 1;
    }
    let mut keys: Vec<Vec<Option<Vec<i128>>>> = Vec::new();
    let mut i: usize = 0;
    while i < n
        invariant
            n == rows.len(),
            rows == row_maps(row_values@),
            m == conds.len(),
            conds == conditions@,
            infos == property_info@,
            has@.len() == m,
            forall|q: int| 0 <= q < m ==> has@[q] == infos.contains_key(#[trigger] conds[q].property_id@),
            i <= n,
            keys@.len() == i,
            forall|j: int| 0 <= j < i ==> keys_of(#[trigger] keys@[j]@, rows[j], conds, infos),
        decreases n - i,
    {
        let row = &row_values[i];
        let mut row_keys: Vec<Option<Vec<i128>>> = Vec::new();
        let mut k: usize = 0;
        while k < m
            invariant
                m == conds.len(),
                conds == conditions@,
                infos == property_info@,
                row@ == rows[i as int],
                k <= m,
                row_keys@.len() == k,
                forall|q: int| 0 <= q < k && infos.contains_key(conds[q].property_id@) ==> key_view(
                    #[trigger] row_keys@[q],
                ) == sort_key(row_get(row@, conds[q].property_id), infos[conds[q].property_id@]),
            decreases m - k,
        {
            let pid = conditions[k].property_id;
            let key = match property_info.get(&pid.as_uuid()) {
                Some(info) => value_sort_key(row_value(row, pid), info),
                None => None,
            };
            row_keys.push(key);
            k = k + 1;
        }
        keys.push(row_keys);
        i = i + 1;
    }
    let mut out: Vec<usize> = Vec::new();
    let mut i: usize = 0;
    while i < n
        invariant
            n == rows.len(),
            rows == row_maps(row_values@),
            m == conds.len(),
            conds == conditions@,
            infos == property_info@,
            has@.len() == m,
            forall|q: int| 0 <= q < m ==> has@[q] == infos.contains_key(#[trigger] conds[q].property_id@),
            keys@.len() == n,
            forall|j: int| 0 <= j < n ==> keys_of(#[trigger] keys@[j]@, rows[j], conds, infos),
            i <= n,
            out@.len() == i,
            forall|q: int| 0 <= q < out@.len() ==> out@[q] < i,
            forall|a: int, b: int| 0 <= a < b < out@.len() ==> out@[a] != out@[b],
            forall|j: int| 0 <= j < i ==> #[trigger] out@.contains(j as usize),
            forall|a: int, b: int| 0 <= a < b < out@.len() ==> row_before(
                rows,
                conds,
                infos,
                out@[a] as int,
                out@[b] as int,
            ),
        decreases n - i,
    {
        let mut p: usize = 0;
        while p < out.len()
            invariant
                n == rows.len(),
                i < n,
                p <= out@.len(),
                forall|q: int| 0 <= q < out@.len() ==> out@[q] < i,
                keys@.len() == n,
                forall|j: int| 0 <= j < n ==> keys_of(#[trigger] keys@[j]@, rows[j], conds, infos),
                has@.len() == conds.len(),
                forall|q: int| 0 <= q < conds.len() ==> has@[q] == infos.contains_key(#[trigger] conds[q].property_id@),
                conds == conditions@,
                forall|q: int| 0 <= q < p ==> rows_order(rows[i as int], rows[out@[q] as int], conds, infos)
                    != Order::Less,
            ensures
                p <= out@.len(),
                forall|q: int| 0 <= q < p ==> rows_order(rows[i as int], rows[out@[q] as int], conds, infos)
                    != Order::Less,
                p < out@.len() ==> rows_order(rows[i as int], rows[out@[p as int] as int], conds, infos)
                    == Order::Less,
            decreases out@.len() - p,
        {
            let o = compare_rows(
                &keys[i],
                &keys[out[p]],
                conditions,
                &has,
                Ghost(rows[i as int]),
                Ghost(rows[out@[p as int] as int]),
                Ghost(infos),
            );
            if o == Order::Less {
                break;
            }
            p = p + 1;
        }
        let ghost before = out@;
        proof {
            if p < before.len() {
                assert(rows_order(rows[i as int], rows[before[p as int] as int], conds, infos)
                    == Order::Less);
            }
        }
        out.insert(p, i);
        proof {
            assert(out@ =~= before.insert(p as int, i));
            assert forall|j: int| 0 <= j < i + 1 implies #[trigger] out@.contains(j as usize) by {
                if j < i {
                    assert(before.contains(j as usize));
                    let q = choose|q: int| 0 <= q < before.len() && before[q] == j as usize;
                    if q < p {
                        assert(out@[q] == before[q]);
                    } else {
                        assert(out@[q + 1] == before[q]);
                    }
                } else {
                    assert(out@[p as int] == i);
                }
            }
            assert forall|a: int, b: int| 0 <= a < b < out@.len() implies row_before(
                rows,
                conds,
                infos,
                out@[a] as int,
                out@[b] as int,
            ) by {
                if b < p {
                    assert(out@[a] == before[a] && out@[b] == before[b]);
                } else if b == p {
                    assert(out@[a] == before[a]);
                    lemma_row_before(rows, conds, infos, before[a] as int, i as int, i as int);
                    lemma_rows_order(rows[i as int], rows[before[a] as int], rows[i as int], conds, infos);
                } else if a == p {
                    assert(out@[b] == before[b - 1]);
                    if b - 1 == p {
                    } else {
                        assert(row_before(rows, conds, infos, before[p as int] as int, before[b - 1] as int));
                        lemma_rows_order(
                            rows[i as int],
                            rows[before[p as int] as int],
                            rows[before[b - 1] as int],
                            conds,
                            infos,
                        );
                        lemma_rows_order(
                            rows[before[p as int] as int],
                            rows[before[b - 1] as int],
                            rows[i as int],
                            conds,
                            infos,
                        );
                    }
                } else if a < p {
                    assert(out@[a] == before[a] && out@[b] == before[b - 1]);
                } else {
                    assert(out@[a] == before[a - 1] && out@[b] == before[b - 1]);
                }
            }
        }
        i = i + 1;
    }
    out
}

/// Rows that compare equal on every sort condition come out in their input
/// order (the sort is stable).
pub proof fn law_sort_stable(
    r: Seq<usize>,
    rows: Seq<Map<u128, RowPropertyValue>>,
    conds: Seq<SortCondition>,
    infos: Map<u128, SortPropertyInfo>,
    a: int,
    b: int,
)
    requires
        sort_result(r, rows, conds, infos),
        0 <= a < r.len(),
        0 <= b < r.len(),
        r[a] < r[b],
        rows_order(rows[r[a] as int], rows[r[b] as int], conds, infos) == Order::Equal,
    ensures
        a < b,
{
    lemma_rows_order(rows[r[a] as int], rows[r[b] as int], rows[r[b] as int], conds, infos);
    if b < a {
        assert(row_before(rows, conds, infos, r[b] as int, r[a] as int));
    }
}

/// With no sort condition the rows keep their input order.
pub proof fn law_no_conditions_identity(
    r: Seq<usize>,
    rows: Seq<Map<u128, RowPropertyValue>>,
    infos: Map<u128, SortPropertyInfo>,
)
    requires
        sort_result(r, rows, Seq::<SortCondition>::empty(), infos),
    ensures
        forall|k: int| 0 <= k < r.len() ==> r[k] == k,
{
    let conds = Seq::<SortCondition>::empty();
    assert forall|a: int, b: int| 0 <= a < b < r.len() implies r[a] < r[b] by {
        assert(row_before(rows, conds, infos, r[a] as int, r[b] as int));
    }
    lemma_increasing_bounds(r, r.len() as int);
}

/// An increasing sequence of `n` indices below `n` is `0, 1, ..., n - 1`.
proof fn lemma_increasing_bounds(r: Seq<usize>, n: int)
    requires
        r.len() == n,
        forall|k: int| 0 <= k < n ==> r[k] < n,
        forall|a: int, b: int| 0 <= a < b < n ==> r[a] < r[b],
    ensures
        forall|k: int| 0 <= k < n ==> r[k] == k,
{
    assert forall|k: int| 0 <= k < n implies r[k] >= k by {
        lemma_at_least(r, n, k);
    }
    assert forall|k: int| 0 <= k < n implies r[k] <= k by {
        lemma_at_most(r, n, k);
    }
}

proof fn lemma_at_least(r: Seq<usize>, n: int, k: int)
    requires
        r.len() == n,
        0 <= k < n,
        forall|a: int, b: int| 0 <= a < b < n ==> r[a] < r[b],
    ensures
        r[k] >= k,
    decreases k,
{
    if k > 0 {
        lemma_at_least(r, n, k - 1);
    }
}

proof fn lemma_at_most(r: Seq<usize>, n: int, k: int)
    requires
        r.len() == n,
        0 <= k < n,
        forall|q: int| 0 <= q < n ==> r[q] < n,
        forall|a: int, b: int| 0 <= a < b < n ==> r[a] < r[b],
    ensures
        r[k] <= k,
    decreases n - k,
{
    if k < n - 1 {
        lemma_at_most(r, n, k + 1);
    }
}

/// The sorted order is determined: any two orders that meet the sort's
/// contract for the same rows and conditions are the same.
pub proof fn law_sort_unique(
    r1: Seq<usize>,
    r2: Seq<usize>,
    rows: Seq<Map<u128, RowPropertyValue>>,
    conds: Seq<SortCondition>,
    infos: Map<u128, SortPropertyInfo>,
)
    requires
        sort_result(r1, rows, conds, infos),
        sort_result(r2, rows, conds, infos),
    ensures
        r1 == r2,
{
    assert forall|x: usize| r1.contains(x) <==> r2.contains(x) by {
        if r1.contains(x) {
            let k = choose|k: int| 0 <= k < r1.len() && r1[k] == x;
            assert(r2.contains((x as int) as usize));
        }
        if r2.contains(x) {
            let k = choose|k: int| 0 <= k < r2.len() && r2[k] == x;
            assert(r1.contains((x as int) as usize));
        }
    }
    lemma_sorted_unique(r1, r2, rows, conds, infos);
}

/// Two duplicate-free sequences of the same indices, each ordered by
/// `row_before`, are equal.
proof fn lemma_sorted_unique(
    r1: Seq<usize>,
    r2: Seq<usize>,
    rows: Seq<Map<u128, RowPropertyValue>>,
    conds: Seq<SortCondition>,
    infos: Map<u128, SortPropertyInfo>,
)
    requires
        r1.len() == r2.len(),
        forall|k: int| 0 <= k < r1.len() ==> r1[k] < rows.len(),
        forall|k: int| 0 <= k < r2.len() ==> r2[k] < rows.len(),
        forall|a: int, b: int| 0 <= a < b < r1.len() ==> r1[a] != r1[b],
        forall|a: int, b: int| 0 <= a < b < r2.len() ==> r2[a] != r2[b],
        forall|x: usize| r1.contains(x) <==> r2.contains(x),
        forall|a: int, b: int| 0 <= a < b < r1.len() ==> row_before(rows, conds, infos, r1[a] as int, r1[b] as int),
        forall|a: int, b: int| 0 <= a < b < r2.len() ==> row_before(rows, conds, infos, r2[a] as int, r2[b] as int),
    ensures
        r1 == r2,
    decreases r1.len(),
{
    if r1.len() == 0 {
        assert(r1 =~= r2);
    } else {
        let x = r1[0];
        let y = r2[0];
        if x != y {
            assert(r1.contains(y)) by {
                assert(r2.contains(y));
            }
            let j = choose|j: int| 0 <= j < r1.len() && r1[j] == y;
            assert(r2.contains(x)) by {
                assert(r1.contains(x));
            }
            let k = choose|k: int| 0 <= k < r2.len() && r2[k] == x;
            assert(j > 0 && k > 0);
            assert(row_before(rows, conds, infos, x as int, y as int));
            assert(row_before(rows, conds, infos, y as int, x as int));
            lemma_row_before(rows, conds, infos, x as int, y as int, x as int);
        }
        let t1 = r1.drop_first();
        let t2 = r2.drop_first();
        assert forall|z: usize| t1.contains(z) <==> t2.contains(z) by {
            if t1.contains(z) {
                let q = choose|q: int| 0 <= q < t1.len() && t1[q] == z;
                assert(r1[q + 1] == z && z != x);
                assert(r1.contains(z));
                let w = choose|w: int| 0 <= w < r2.len() && r2[w] == z;
                assert(w != 0);
                assert(t2[w - 1] == z);
            }
            if t2.contains(z) {
                let q = choose|q: int| 0 <= q < t2.len() && t2[q] == z;
                assert(r2[q + 1] == z && z != y);
                assert(r2.contains(z));
                let w = choose|w: int| 0 <= w < r1.len() && r1[w] == z;
                assert(w != 0);
                assert(t1[w - 1] == z);
            }
        }
        assert forall|a: int, b: int| 0 <= a < b < t1.len() implies row_before(rows, conds, infos, t1[a] as int, t1[b] as int) by {
            assert(t1[a] == r1[a + 1] && t1[b] == r1[b + 1]);
        }
        assert forall|a: int, b: int| 0 <= a < b < t2.len() implies row_before(rows, conds, infos, t2[a] as int, t2[b] as int) by {
            assert(t2[a] == r2[a + 1] && t2[b] == r2[b + 1]);
        }
        lemma_sorted_unique(t1, t2, rows, conds, infos);
        assert(r1 =~= seq![x] + t1);
        assert(r2 =~= seq![y] + t2);
    }
}

/// Sorting by a date property orders rows by instant, not by day: when the
/// first sort condition is on a date property, a row whose date is a
/// strictly earlier instant (seconds, then nanoseconds) than another row's
/// comes before it in the sorted order when ascending, and after it when
/// descending.
pub proof fn law_date_sort_by_instant(
    r: Seq<usize>,
    rows: Seq<Map<u128, RowPropertyValue>>,
    conds: Seq<SortCondition>,
    infos: Map<u128, SortPropertyInfo>,
    p: int,
    q: int,
    earlier: Timestamp,
    later: Timestamp,
)
    requires
        sort_result(r, rows, conds, infos),
        conds.len() > 0,
        infos.contains_key(conds[0].property_id@),
        infos[conds[0].property_id@].property_type == PropertyType::Date,
        0 <= p < r.len(),
        0 <= q < r.len(),
        row_get(rows[r[p] as int], conds[0].property_id) matches Some(v) && v.date_value == Some(earlier),
        row_get(rows[r[q] as int], conds[0].property_id) matches Some(v) && v.date_value == Some(later),
        earlier.spec_secs() < later.spec_secs() || (earlier.spec_secs() == later.spec_secs()
            && earlier.spec_nanos() < later.spec_nanos()),
    ensures
        conds[0].direction == SortDirection::Ascending ==> p < q,
        conds[0].direction == SortDirection::Descending ==> q < p,
{
    let a = rows[r[p] as int];
    let b = rows[r[q] as int];
    let ka = seq![earlier.spec_secs() as i128, earlier.spec_nanos() as i128];
    let kb = seq![later.spec_secs() as i128, later.spec_nanos() as i128];
    let info = infos[conds[0].property_id@];
    assert(sort_key(row_get(a, conds[0].property_id), info) == Some(ka));
    assert(sort_key(row_get(b, conds[0].property_id), info) == Some(kb));
    assert(ka.drop_first() =~= seq![earlier.spec_nanos() as i128]);
    assert(kb.drop_first() =~= seq![later.spec_nanos() as i128]);
    if earlier.spec_secs() == later.spec_secs() {
        assert(seq_order(ka.drop_first(), kb.drop_first()) == Order::Less);
    }
    assert(seq_order(ka, kb) == Order::Less);
    lemma_rows_order(a, b, b, conds, infos);
    if conds[0].direction == SortDirection::Ascending {
        assert(rows_order(a, b, conds, infos) == Order::Less);
        if q <= p {
            if q == p {
                assert(earlier == later);
            } else {
                assert(row_before(rows, conds, infos, r[q] as int, r[p] as int));
            }
        }
    } else {
        assert(rows_order(a, b, conds, infos) == Order::Greater);
        if p <= q {
            if q == p {
                assert(earlier == later);
            } else {
                assert(row_before(rows, conds, infos, r[p] as int, r[q] as int));
            }
        }
    }
}

} // verus!
