//! Laying out a database's table: the rows a view shows, in the order it
//! shows them, and its groups.

use vstd::prelude::*;
use vstd::view::View as _;
use std::collections::HashMap;
use crate::filter::{apply_filters, increasing, law_filter_unique, row_passes};
use crate::group::{GroupInfo, compute_groups, groups_result};
use crate::ids::PropertyId;
use crate::property::{PropertyConfig, PropertyType};
use crate::sort::{RowPropertyValue, SortPropertyInfo, compute_sort_order, law_sort_unique, row_maps, sort_result};
use crate::view::{FilterCondition, GroupCondition, SortCondition, View};

verus! {

broadcast use vstd::std_specs::hash::group_hash_axioms;

/// What the filter returns: the indices of the rows that meet every
/// condition, in increasing order.
pub open spec fn filter_result(
    r: Seq<usize>,
    rows: Seq<Map<u128, RowPropertyValue>>,
    conds: Seq<FilterCondition>,
    types: Map<u128, PropertyType>,
) -> bool {
    &&& increasing(r)
    &&& forall|k: int| 0 <= k < r.len() ==> r[k] < rows.len()
    &&& forall|i: int| 0 <= i < rows.len() ==> (#[trigger] r.contains(i as usize) <==> row_passes(rows[i], conds, types))
}

/// The rows at the given indices.
pub open spec fn pick(rows: Seq<Map<u128, RowPropertyValue>>, idx: Seq<usize>) -> Seq<Map<u128, RowPropertyValue>> {
    idx.map_values(|i: usize| rows[i as int])
}

/// The indices `base[i]` for each `i` of `idx`.
pub open spec fn compose(base: Seq<usize>, idx: Seq<usize>) -> Seq<usize> {
    idx.map_values(|i: usize| base[i as int])
}

/// The rows of the first `k` groups that are not collapsed, group by group.
pub open spec fn visible_rows(groups: Seq<GroupInfo>, grouped: Seq<Vec<usize>>, k: int) -> Seq<usize>
    decreases k,
{
    if k <= 0 {
        Seq::empty()
    } else if groups[k - 1].is_collapsed {
        visible_rows(groups, grouped, k - 1)
    } else {
        visible_rows(groups, grouped, k - 1) + grouped[k - 1]@
    }
}

/// The type a view groups by: that of the property, or text if unknown.
pub open spec fn group_type(types: Map<u128, PropertyType>, pid: PropertyId) -> PropertyType {
    if types.contains_key(pid@) {
        types[pid@]
    } else {
        PropertyType::Text
    }
}

/// The configuration of the property a view groups by, if known.
pub open spec fn group_config(infos: Map<u128, SortPropertyInfo>, pid: PropertyId) -> Option<PropertyConfig> {
    if infos.contains_key(pid@) {
        infos[pid@].config
    } else {
        None
    }
}

/// The rows a view shows and its groups.
#[derive(Debug, Clone)]
pub struct TableLayout {
    /// Indices of the rows shown, in display order.
    pub rows: Vec<usize>,
    /// The groups, when the view groups rows.
    pub groups: Option<Vec<GroupInfo>>,
}

/// Whether `r` is what grouping the sorted rows gives: `order` lists the
/// filtered rows in sort order.
pub open spec fn grouped_layout(
    r: TableLayout,
    rows: Seq<Map<u128, RowPropertyValue>>,
    order: Seq<usize>,
    group: Option<GroupCondition>,
    types: Map<u128, PropertyType>,
    infos: Map<u128, SortPropertyInfo>,
    collapsed: Set<Seq<char>>,
) -> bool {
    match group {
        None => r.groups is None && r.rows@ == order,
        Some(gc) => match r.groups {
            Some(gs) => exists|gr: Seq<Vec<usize>>|
                #[trigger] groups_result(
                    gs@,
                    gr,
                    pick(rows, order),
                    gc.property_id,
                    group_type(types, gc.property_id),
                    group_config(infos, gc.property_id),
                    collapsed,
                ) && r.rows@ == compose(order, visible_rows(gs@, gr, gs@.len() as int)),
            None => false,
        },
    }
}

/// Lays out a database's table as its view shows it: the rows that meet
/// the filter conditions, ordered by the sort conditions, then (with a group
/// condition) gathered group by group, leaving out the rows of collapsed
/// groups. Row values are keyed by property UUID; the grouping property's
/// type and configuration come from `property_types` and `property_info`.
pub fn arrange_rows(
    row_values: &[HashMap<u128, RowPropertyValue>],
    view: &View,
    property_types: &HashMap<u128, PropertyType>,
    property_info: &HashMap<u128, SortPropertyInfo>,
) -> (r: TableLayout)
    ensures
        exists|f: Seq<usize>, s: Seq<usize>|
            #![trigger filter_result(f, row_maps(row_values@), view.spec_filters(), property_types@), sort_result(s, pick(row_maps(row_values@), f), view.spec_sorts(), property_info@)]
            filter_result(f, row_maps(row_values@), view.spec_filters(), property_types@)
            && sort_result(s, pick(row_maps(row_values@), f), view.spec_sorts(), property_info@)
            && grouped_layout(
                r,
                row_maps(row_values@),
                compose(f, s),
                view.spec_group(),
                property_types@,
                property_info@,
                view.spec_collapsed(),
            ),
{
    let ghost maps = row_maps(row_values@);
    let f = apply_filters(row_values, view.filter_conditions(), property_types);
    proof {
        assert forall|i: int| 0 <= i < maps.len() implies (#[trigger] f@.contains(i as usize) <==> row_passes(maps[i], view.spec_filters(), property_types@)) by {
            assert(maps[i] == row_values@[i]@);
        }
    }
    let mut sub: Vec<HashMap<u128, RowPropertyValue>> = Vec::new();
    let mut k: usize = 0;
    while k < f.len()
        invariant
            maps == row_maps(row_values@),
            forall|q: int| 0 <= q < f@.len() ==> f@[q] < row_values@.len(),
            k <= f@.len(),
            sub@.len() == k,
            forall|q: int| 0 <= q < k ==> #[trigger] sub@[q]@ == maps[f@[q] as int],
        decreases f@.len() - k,
    {
        let m = row_values[f[k]].clone();
        sub.push(m);
        k = k + 1;
    }
    assert(row_maps(sub@) =~= pick(maps, f@));
    let s = compute_sort_order(sub.as_slice(), view.sort_conditions(), property_info);
    let mut order: Vec<usize> = Vec::new();
    let mut k: usize = 0;
    while k < s.len()
        invariant
            forall|q: int| 0 <= q < s@.len() ==> s@[q] < f@.len(),
            k <= s@.len(),
            order@ == compose(f@, s@.take(k as int)),
        decreases s@.len() - k,
    {
        order.push(f[s[k]]);
        assert(compose(f@, s@.take(k + 1)) =~= compose(f@, s@.take(k as int)).push(f@[s@[k as int] as int]));
        k = k + 1;
    }
    assert(s@.take(s@.len() as int) =~= s@);
    let ghost ord = compose(f@, s@);
    assert(forall|q: int| 0 <= q < ord.len() ==> ord[q] < row_values@.len());
    let layout = match view.group_condition() {
        None => {
            let out = TableLayout { rows: order, groups: None };
            assert(grouped_layout(out, maps, ord, view.spec_group(), property_types@, property_info@, view.spec_collapsed()));
            out
        },
        Some(gc) => {
            let mut sorted_rows: Vec<HashMap<u128, RowPropertyValue>> = Vec::new();
            let mut k: usize = 0;
            while k < order.len()
                invariant
                    maps == row_maps(row_values@),
                    forall|q: int| 0 <= q < order@.len() ==> order@[q] < row_values@.len(),
                    k <= order@.len(),
                    sorted_rows@.len() == k,
                    forall|q: int| 0 <= q < k ==> #[trigger] sorted_rows@[q]@ == maps[order@[q] as int],
                decreases order@.len() - k,
            {
                let m = row_values[order[k]].clone();
                sorted_rows.push(m);
                k = k + 1;
            }
            assert(row_maps(sorted_rows@) =~= pick(maps, order@));
            let pid = gc.property_id;
            let t = match property_types.get(&pid.as_uuid()) {
                Some(t) => *t,
                None => PropertyType::Text,
            };
            let cfg: Option<&PropertyConfig> = match property_info.get(&pid.as_uuid()) {
                Some(info) => match &info.config {
                    Some(c) => Some(c),
                    None => None,
                },
                None => None,
            };
            let collapsed = view.collapsed_groups();
            let (gs, gr) = compute_groups(sorted_rows.as_slice(), gc, t, cfg, collapsed);
            let ghost gview = pick(maps, order@);
            proof {
                assert(t == group_type(property_types@, pid));
                assert(match cfg {
                    Some(c) => Some(*c),
                    None => None,
                } == group_config(property_info@, pid));
                assert(groups_result(gs@, gr@, gview, pid, t, group_config(property_info@, pid), view.spec_collapsed()));
                assert forall|a: int, x: int| 0 <= a < gr@.len() && 0 <= x < gr@[a]@.len() implies #[trigger] gr@[a]@[x] < order@.len() by {
                    assert(gs@[a].count == gr@[a]@.len());
                }
            }
            let mut shown: Vec<usize> = Vec::new();
            let mut g: usize = 0;
            while g < gs.len()
                invariant
                    gs@.len() == gr@.len(),
                    forall|a: int, x: int| 0 <= a < gr@.len() && 0 <= x < gr@[a]@.len() ==> #[trigger] gr@[a]@[x] < order@.len(),
                    g <= gs@.len(),
                    shown@ == compose(order@, visible_rows(gs@, gr@, g as int)),
                decreases gs@.len() - g,
            {
                if !gs[g].is_collapsed {
                    let members = &gr[g];
                    let ghost base = shown@;
                    let mut x: usize = 0;
                    while x < members.len()
                        invariant
                            members == gr@[g as int],
                            forall|y: int| 0 <= y < members@.len() ==> #[trigger] members@[y] < order@.len(),
                            x <= members@.len(),
                            shown@ == base + compose(order@, members@.take(x as int)),
                        decreases members@.len() - x,
                    {
                        shown.push(order[members[x]]);
                        assert(compose(order@, members@.take(x + 1)) =~= compose(order@, members@.take(x as int)).push(order@[members@[x as int] as int]));
                        x = x + 1;
                    }
                    assert(members@.take(members@.len() as int) =~= members@);
                    assert(compose(order@, visible_rows(gs@, gr@, g + 1)) =~= compose(order@, visible_rows(gs@, gr@, g as int)) + compose(order@, gr@[g as int]@));
                }
                g = g + 1;
            }
            let ghost grv = gr@;
            let out = TableLayout { rows: shown, groups: Some(gs) };
            proof {
                assert(order@ == ord);
                assert(groups_result(gs@, grv, pick(maps, ord), pid, group_type(property_types@, pid), group_config(property_info@, pid), view.spec_collapsed()));
                assert(out.rows@ == compose(ord, visible_rows(gs@, grv, gs@.len() as int)));
                assert(view.spec_group() == Some(*gc));
                assert(out.groups->Some_0@ == gs@);
                assert(exists|gr: Seq<Vec<usize>>| #[trigger] groups_result(
                    gs@,
                    gr,
                    pick(maps, ord),
                    pid,
                    group_type(property_types@, pid),
                    group_config(property_info@, pid),
                    view.spec_collapsed(),
                ) && out.rows@ == compose(ord, visible_rows(gs@, gr, gs@.len() as int)));
                assert(grouped_layout(out, maps, ord, view.spec_group(), property_types@, property_info@, view.spec_collapsed()));
            }
            out
        },
    };
    proof {
        assert(filter_result(f@, maps, view.spec_filters(), property_types@));
        assert(sort_result(s@, pick(maps, f@), view.spec_sorts(), property_info@));
    }
    layout
}

/// The order in which a table shows its rows is determined: the filtered
/// rows, and their sorted order, are the same for any two results that meet
/// the filter's and the sort's contracts. So, without a group condition,
/// the rows a view shows are determined by the rows and the view.
pub proof fn law_table_order_determined(
    rows: Seq<Map<u128, RowPropertyValue>>,
    filters: Seq<FilterCondition>,
    types: Map<u128, PropertyType>,
    sorts: Seq<SortCondition>,
    infos: Map<u128, SortPropertyInfo>,
    f1: Seq<usize>,
    f2: Seq<usize>,
    s1: Seq<usize>,
    s2: Seq<usize>,
)
    requires
        filter_result(f1, rows, filters, types),
        filter_result(f2, rows, filters, types),
        sort_result(s1, pick(rows, f1), sorts, infos),
        sort_result(s2, pick(rows, f2), sorts, infos),
    ensures
        f1 == f2,
        s1 == s2,
        compose(f1, s1) == compose(f2, s2),
{
    assert forall|i: int| 0 <= i < rows.len() implies (f1.contains(i as usize) <==> row_passes(rows[i], filters, types)) by {
        assert(f1.contains(i as usize) <==> row_passes(rows[i], filters, types));
    }
    assert forall|i: int| 0 <= i < rows.len() implies (f2.contains(i as usize) <==> row_passes(rows[i], filters, types)) by {
        assert(f2.contains(i as usize) <==> row_passes(rows[i], filters, types));
    }
    law_filter_unique(f1, f2, rows, filters, types);
    law_sort_unique(s1, s2, pick(rows, f1), sorts, infos);
}

} // verus!
