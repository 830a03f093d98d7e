//! Data sent to the frontend: plain records of IDs as text, timestamps as
//! RFC 3339 text and enum values.

use vstd::prelude::*;
use vstd::view::View as _;
use std::collections::HashMap;
use crate::block::{Block, BlockView};
use crate::database::Database;
use crate::editor::{EditorSession, views};
use crate::group::GroupInfo;
use crate::ids::{DatabaseId, PageId, uuid_text};
use crate::page::Page;
use crate::property::{Property, PropertyConfig, PropertyType, PropertyValue, SelectOption, opt_view};
use crate::time::{Timestamp, rfc3339_text};
use crate::view::{FilterCondition, FilterOperator, FilterValue, GroupCondition, SortCondition, SortDirection, View, ViewType, text_set, distinct_texts};

verus! {

/// The RFC 3339 text of an instant.
pub open spec fn time_text(t: Timestamp) -> Seq<char> {
    rfc3339_text(t.spec_secs(), t.spec_nanos())
}

/// The text of an optional page ID.
pub open spec fn page_id_text(p: Option<PageId>) -> Option<Seq<char>> {
    match p {
        Some(id) => Some(uuid_text(id@)),
        None => None,
    }
}

/// The text of an optional database ID.
pub open spec fn database_id_text(d: Option<DatabaseId>) -> Option<Seq<char>> {
    match d {
        Some(id) => Some(uuid_text(id@)),
        None => None,
    }
}

/// A page as the frontend receives it.
#[derive(Debug, Clone)]
pub struct PageDto {
    /// The page ID.
    pub id: String,
    /// The title.
    pub title: String,
    /// The owning database's ID, if any.
    pub database_id: Option<String>,
    /// The parent page's ID, if any.
    pub parent_id: Option<String>,
    /// The order within the same parent.
    pub sort_order: i64,
    /// The creation time.
    pub created_at: String,
    /// The last update time.
    pub updated_at: String,
}

fn page_id_string(p: Option<&PageId>) -> (r: Option<String>)
    ensures
        opt_view(r) == page_id_text(
            match p {
                Some(x) => Some(*x),
                None => None,
            },
        ),
{
    match p {
        Some(id) => Some(id.to_string()),
        None => None,
    }
}

fn database_id_string(d: Option<&DatabaseId>) -> (r: Option<String>)
    ensures
        opt_view(r) == database_id_text(
            match d {
                Some(x) => Some(*x),
                None => None,
            },
        ),
{
    match d {
        Some(id) => Some(id.to_string()),
        None => None,
    }
}

impl PageDto {
    /// The record of a page.
    pub fn from(page: Page) -> (r: Self)
        ensures
            r.id@ == uuid_text(page@.id@),
            r.title@ == page@.title,
            opt_view(r.database_id) == database_id_text(page@.database_id),
            opt_view(r.parent_id) == page_id_text(page@.parent_id),
            r.sort_order == page@.sort_order,
            r.created_at@ == time_text(page@.created_at),
            r.updated_at@ == time_text(page@.updated_at),
    {
        PageDto {
            id: page.id().to_string(),
            title: String::from_str(page.title().as_str()),
            database_id: database_id_string(page.database_id()),
            parent_id: page_id_string(page.parent_id()),
            sort_order: page.sort_order(),
            created_at: page.created_at().to_rfc3339(),
            updated_at: page.updated_at().to_rfc3339(),
        }
    }
}

/// The kind of a sidebar item.
#[derive(Debug, Clone, Copy, PartialEq, Eq, Structural)]
pub enum SidebarItemType {
    /// A page.
    Page,
    /// A database.
    Database,
}

/// An item of the sidebar: a page or a database. The frontend builds the
/// tree from `parent_id` and `database_id`.
#[derive(Debug, Clone)]
pub struct SidebarItemDto {
    /// The item's ID.
    pub id: String,
    /// The title.
    pub title: String,
    /// Whether it is a page or a database.
    pub item_type: SidebarItemType,
    /// The parent page's ID, if any.
    pub parent_id: Option<String>,
    /// The owning database's ID, if any.
    pub database_id: Option<String>,
    /// The creation time.
    pub created_at: String,
}

/// Whether a sidebar item describes the page.
pub open spec fn page_item(item: SidebarItemDto, page: Page) -> bool {
    &&& item.id@ == uuid_text(page@.id@)
    &&& item.title@ == page@.title
    &&& item.item_type == SidebarItemType::Page
    &&& opt_view(item.parent_id) == page_id_text(page@.parent_id)
    &&& opt_view(item.database_id) == database_id_text(page@.database_id)
    &&& item.created_at@ == time_text(page@.created_at)
}

/// Whether a sidebar item describes the database.
pub open spec fn database_item(item: SidebarItemDto, db: Database) -> bool {
    &&& item.id@ == uuid_text(db.spec_id()@)
    &&& item.title@ == db.spec_title()
    &&& item.item_type == SidebarItemType::Database
    &&& item.parent_id is None
    &&& item.database_id is None
    &&& item.created_at@ == time_text(db.spec_created_at())
}

/// The sidebar: every page, in the given order, then every database.
pub fn sidebar_items(pages: &[Page], databases: &[Database]) -> (r: Vec<SidebarItemDto>)
    ensures
        r@.len() == pages@.len() + databases@.len(),
        forall|i: int| 0 <= i < pages@.len() ==> page_item(#[trigger] r@[i], pages@[i]),
        forall|i: int| 0 <= i < databases@.len() ==> database_item(#[trigger] r@[pages@.len() + i], databases@[i]),
{
    let mut items: Vec<SidebarItemDto> = Vec::new();
    let mut i: usize = 0;
    while i < pages.len()
        invariant
            i <= pages@.len(),
            items@.len() == i,
            forall|j: int| 0 <= j < i ==> page_item(#[trigger] items@[j], pages@[j]),
        decreases pages@.len() - i,
    {
        let page = &pages[i];
        items.push(
            SidebarItemDto {
                id: page.id().to_string(),
                title: String::from_str(page.title().as_str()),
                item_type: SidebarItemType::Page,
                parent_id: page_id_string(page.parent_id()),
                database_id: database_id_string(page.database_id()),
                created_at: page.created_at().to_rfc3339(),
            },
        );
        i = i + 1;
    }
    let mut k: usize = 0;
    while k < databases.len()
        invariant
            k <= databases@.len(),
            items@.len() == pages@.len() + k,
            forall|j: int| 0 <= j < pages@.len() ==> page_item(#[trigger] items@[j], pages@[j]),
            forall|j: int| 0 <= j < k ==> database_item(#[trigger] items@[pages@.len() + j], databases@[j]),
        decreases databases@.len() - k,
    {
        let db = &databases[k];
        items.push(
            SidebarItemDto {
                id: db.id().to_string(),
                title: String::from_str(db.title().as_str()),
                item_type: SidebarItemType::Database,
                parent_id: None,
                database_id: None,
                created_at: db.created_at().to_rfc3339(),
            },
        );
        k = k + 1;
    }
    items
}

/// A block as the frontend receives it.
#[derive(Debug)]
pub struct BlockDto {
    /// The block ID.
    pub id: String,
    /// The owning page's ID.
    pub page_id: String,
    /// The block type (e.g. "text").
    pub block_type: String,
    /// The content.
    pub content: String,
    /// The position within the page.
    pub position: i64,
    /// The creation time.
    pub created_at: String,
    /// The last update time.
    pub updated_at: String,
}

/// Whether a record describes the block.
pub open spec fn block_record(d: BlockDto, b: BlockView) -> bool {
    &&& d.id@ == uuid_text(b.id@)
    &&& d.page_id@ == uuid_text(b.page_id@)
    &&& d.block_type@ == b.block_type
    &&& d.content@ == b.content
    &&& d.position == b.position
    &&& d.created_at@ == time_text(b.created_at)
    &&& d.updated_at@ == time_text(b.updated_at)
}

impl BlockDto {
    /// The record of a block.
    pub fn from(block: &Block) -> (r: Self)
        ensures
            block_record(r, block@),
    {
        BlockDto {
            id: block.id().to_string(),
            page_id: block.page_id().to_string(),
            block_type: String::from_str(block.block_type()),
            content: String::from_str(block.content().as_str()),
            position: block.position().value(),
            created_at: block.created_at().to_rfc3339(),
            updated_at: block.updated_at().to_rfc3339(),
        }
    }
}

/// An editor session's state as the frontend receives it.
#[derive(Debug)]
pub struct EditorStateDto {
    /// The page being edited.
    pub page_id: String,
    /// The blocks in display order.
    pub blocks: Vec<BlockDto>,
}

impl EditorStateDto {
    /// The state of an editor session.
    pub fn from_session(session: &EditorSession) -> (r: Self)
        ensures
            r.page_id@ == uuid_text(session@.page_id@),
            r.blocks@.len() == session@.blocks.len(),
            forall|i: int| 0 <= i < r.blocks@.len() ==> block_record(#[trigger] r.blocks@[i], session@.blocks[i]),
    {
        let blocks = session.blocks();
        let mut out: Vec<BlockDto> = Vec::new();
        let mut i: usize = 0;
        while i < blocks.len()
            invariant
                views(blocks@) == session@.blocks,
                i <= blocks@.len(),
                out@.len() == i,
                forall|j: int| 0 <= j < i ==> block_record(#[trigger] out@[j], session@.blocks[j]),
            decreases blocks@.len() - i,
        {
            let d = BlockDto::from(&blocks[i]);
            assert(session@.blocks[i as int] == blocks@[i as int]@);
            out.push(d);
            i = i + 1;
        }
        EditorStateDto { page_id: session.page_id().to_string(), blocks: out }
    }
}

/// A database as the frontend receives it.
#[derive(Debug)]
pub struct DatabaseDto {
    /// The database ID.
    pub id: String,
    /// The title.
    pub title: String,
    /// The creation time.
    pub created_at: String,
    /// The last update time.
    pub updated_at: String,
}

impl DatabaseDto {
    /// The record of a database.
    pub fn from(db: Database) -> (r: Self)
        ensures
            r.id@ == uuid_text(db.spec_id()@),
            r.title@ == db.spec_title(),
            r.created_at@ == time_text(db.spec_created_at()),
            r.updated_at@ == time_text(db.spec_updated_at()),
    {
        DatabaseDto {
            id: db.id().to_string(),
            title: String::from_str(db.title().as_str()),
            created_at: db.created_at().to_rfc3339(),
            updated_at: db.updated_at().to_rfc3339(),
        }
    }
}

/// The options of a select configuration as (ID, value text) pairs.
pub open spec fn options_view(options: Seq<SelectOption>) -> Seq<(u128, Seq<char>)> {
    options.map_values(|o: SelectOption| (o.id@, o.value@))
}

/// Whether two configurations say the same.
pub open spec fn same_config(a: PropertyConfig, b: PropertyConfig) -> bool {
    match (a, b) {
        (PropertyConfig::Text, PropertyConfig::Text) => true,
        (PropertyConfig::Number, PropertyConfig::Number) => true,
        (PropertyConfig::Date { mode: x }, PropertyConfig::Date { mode: y }) => x == y,
        (PropertyConfig::Select { options: x }, PropertyConfig::Select { options: y }) => options_view(x@)
            == options_view(y@),
        (PropertyConfig::Checkbox, PropertyConfig::Checkbox) => true,
        _ => false,
    }
}

/// A copy of a configuration.
pub fn copy_config(c: &PropertyConfig) -> (r: PropertyConfig)
    ensures
        same_config(r, *c),
{
    match c {
        PropertyConfig::Text => PropertyConfig::Text,
        PropertyConfig::Number => PropertyConfig::Number,
        PropertyConfig::Date { mode } => PropertyConfig::Date { mode: *mode },
        PropertyConfig::Checkbox => PropertyConfig::Checkbox,
        PropertyConfig::Select { options } => {
            let mut out: Vec<SelectOption> = Vec::new();
            let mut i: usize = 0;
            while i < options.len()
                invariant
                    i <= options@.len(),
                    options_view(out@) == options_view(options@.take(i as int)),
                decreases options@.len() - i,
            {
                let ghost before = out@;
                let v = options[i].value.clone();
                assert(v@ == options@[i as int].value@);
                let o = SelectOption { id: options[i].id, value: v };
                out.push(o);
                assert(out@ == before.push(o));
                assert(options_view(out@) =~= options_view(before).push((o.id@, o.value@)));
                assert(options@.take(i + 1) =~= options@.take(i as int).push(options@[i as int]));
                assert(options_view(options@.take(i + 1)) =~= options_view(options@.take(i as int)).push(
                    (options@[i as int].id@, options@[i as int].value@),
                ));
                i = i + 1;
            }
            assert(options@.take(options@.len() as int) =~= options@);
            PropertyConfig::Select { options: out }
        },
    }
}

/// A property as the frontend receives it.
#[derive(Debug)]
pub struct PropertyDto {
    /// The property ID.
    pub id: String,
    /// The owning database's ID.
    pub database_id: String,
    /// The name.
    pub name: String,
    /// The type.
    pub property_type: PropertyType,
    /// The configuration, if any.
    pub config: Option<PropertyConfig>,
    /// The display-order position.
    pub position: i64,
    /// The creation time.
    pub created_at: String,
    /// The last update time.
    pub updated_at: String,
}

impl PropertyDto {
    /// The record of a property.
    pub fn from(p: Property) -> (r: Self)
        ensures
            r.id@ == uuid_text(p@.id@),
            r.database_id@ == uuid_text(p@.database_id@),
            r.name@ == p@.name,
            r.property_type == p@.property_type,
            match (r.config, p@.config) {
                (Some(a), Some(b)) => same_config(a, b),
                (None, None) => true,
                _ => false,
            },
            r.position == p@.position,
            r.created_at@ == time_text(p@.created_at),
            r.updated_at@ == time_text(p@.updated_at),
    {
        let config = match p.config() {
            Some(c) => Some(copy_config(c)),
            None => None,
        };
        PropertyDto {
            id: p.id().to_string(),
            database_id: p.database_id().to_string(),
            name: String::from_str(p.name().as_str()),
            property_type: p.property_type(),
            config,
            position: p.position(),
            created_at: p.created_at().to_rfc3339(),
            updated_at: p.updated_at().to_rfc3339(),
        }
    }
}

/// A property value as the frontend receives it; the number is the bit
/// pattern of an `f64`.
#[derive(Debug, Clone)]
pub struct PropertyValueDto {
    /// The value ID.
    pub id: String,
    /// The page ID.
    pub page_id: String,
    /// The property ID.
    pub property_id: String,
    /// The text (text and select properties).
    pub text_value: Option<String>,
    /// The number (bits of an `f64`).
    pub number_value: Option<u64>,
    /// The date, as RFC 3339 text.
    pub date_value: Option<String>,
    /// The boolean.
    pub boolean_value: Option<bool>,
    /// The creation time.
    pub created_at: String,
    /// The last update time.
    pub updated_at: String,
}

impl PropertyValueDto {
    /// The record of a property value.
    pub fn from(pv: PropertyValue) -> (r: Self)
        ensures
            r.id@ == uuid_text(pv@.id@),
            r.page_id@ == uuid_text(pv@.page_id@),
            r.property_id@ == uuid_text(pv@.property_id@),
            opt_view(r.text_value) == pv@.text_value,
            r.number_value == pv@.number_value,
            opt_view(r.date_value) == match pv@.date_value {
                Some(d) => Some(time_text(d)),
                None => None,
            },
            r.boolean_value == pv@.boolean_value,
            r.created_at@ == time_text(pv@.created_at),
            r.updated_at@ == time_text(pv@.updated_at),
    {
        let text_value = match pv.text_value() {
            Some(t) => Some(String::from_str(t)),
            None => None,
        };
        let date_value = match pv.date_value() {
            Some(d) => Some(d.to_rfc3339()),
            None => None,
        };
        PropertyValueDto {
            id: pv.id().to_string(),
            page_id: pv.page_id().to_string(),
            property_id: pv.property_id().to_string(),
            text_value,
            number_value: pv.number_value(),
            date_value,
            boolean_value: pv.boolean_value(),
            created_at: pv.created_at().to_rfc3339(),
            updated_at: pv.updated_at().to_rfc3339(),
        }
    }
}

/// A row of the table: a page and its property values keyed by property ID.
#[derive(Debug, Clone)]
pub struct TableRowDto {
    /// The page.
    pub page: PageDto,
    /// The property values, keyed by property ID text.
    pub values: HashMap<String, PropertyValueDto>,
}

/// Everything the table of a database shows.
#[derive(Debug)]
pub struct TableDataDto {
    /// The database.
    pub database: DatabaseDto,
    /// Its properties, in position order.
    pub properties: Vec<PropertyDto>,
    /// The rows shown, in display order.
    pub rows: Vec<TableRowDto>,
    /// The view settings.
    pub view: ViewDto,
    /// The groups, when the view groups rows.
    pub groups: Option<Vec<GroupInfoDto>>,
}

/// A sort condition as the frontend receives it.
#[derive(Debug)]
pub struct SortConditionDto {
    /// The property ID.
    pub property_id: String,
    /// The sort direction.
    pub direction: SortDirection,
}

impl SortConditionDto {
    /// The record of a sort condition.
    pub fn from(c: &SortCondition) -> (r: Self)
        ensures
            r.property_id@ == uuid_text(c.property_id@),
            r.direction == c.direction,
    {
        SortConditionDto { property_id: c.property_id.to_string(), direction: c.direction }
    }
}

/// A filter value as the frontend receives it; a number is the bit pattern
/// of an `f64`.
#[derive(Debug)]
pub enum FilterValueDto {
    /// Text comparison value.
    Text(String),
    /// Numeric comparison value.
    Number(u64),
    /// Date comparison value.
    Date(String),
    /// Select option comparison value.
    SelectOption(String),
}

/// Whether a record describes the filter value.
pub open spec fn filter_value_record(d: FilterValueDto, v: FilterValue) -> bool {
    match (d, v) {
        (FilterValueDto::Text(a), FilterValue::Text(b)) => a@ == b@,
        (FilterValueDto::Number(a), FilterValue::Number(b)) => a == b,
        (FilterValueDto::Date(a), FilterValue::Date(b)) => a@ == b@,
        (FilterValueDto::SelectOption(a), FilterValue::SelectOption(b)) => a@ == b@,
        _ => false,
    }
}

impl FilterValueDto {
    /// The record of a filter value.
    pub fn from(v: &FilterValue) -> (r: Self)
        ensures
            filter_value_record(r, *v),
    {
        match v {
            FilterValue::Text(s) => FilterValueDto::Text(s.clone()),
            FilterValue::Number(n) => FilterValueDto::Number(*n),
            FilterValue::Date(d) => FilterValueDto::Date(d.clone()),
            FilterValue::SelectOption(s) => FilterValueDto::SelectOption(s.clone()),
        }
    }
}

/// A filter condition as the frontend receives it.
#[derive(Debug)]
pub struct FilterConditionDto {
    /// The property ID.
    pub property_id: String,
    /// The operator.
    pub operator: FilterOperator,
    /// The comparison value, if any.
    pub value: Option<FilterValueDto>,
}

/// Whether a record describes the filter condition.
pub open spec fn filter_record(d: FilterConditionDto, c: FilterCondition) -> bool {
    &&& d.property_id@ == uuid_text(c.property_id@)
    &&& d.operator == c.operator
    &&& match (d.value, c.value) {
        (Some(a), Some(b)) => filter_value_record(a, b),
        (None, None) => true,
        _ => false,
    }
}

impl FilterConditionDto {
    /// The record of a filter condition.
    pub fn from(c: &FilterCondition) -> (r: Self)
        ensures
            filter_record(r, *c),
    {
        let value = match &c.value {
            Some(v) => Some(FilterValueDto::from(v)),
            None => None,
        };
        FilterConditionDto { property_id: c.property_id.to_string(), operator: c.operator, value }
    }
}

/// A group condition as the frontend receives it.
#[derive(Debug)]
pub struct GroupConditionDto {
    /// The property ID.
    pub property_id: String,
}

impl GroupConditionDto {
    /// The record of a group condition.
    pub fn from(c: &GroupCondition) -> (r: Self)
        ensures
            r.property_id@ == uuid_text(c.property_id@),
    {
        GroupConditionDto { property_id: c.property_id.to_string() }
    }
}

/// A group as the frontend receives it.
#[derive(Debug)]
pub struct GroupInfoDto {
    /// The group value (None for the group without a value).
    pub value: Option<String>,
    /// The label shown.
    pub display_value: String,
    /// The number of rows.
    pub count: usize,
    /// Whether the group is collapsed.
    pub is_collapsed: bool,
}

impl GroupInfoDto {
    /// The record of a group.
    pub fn from(g: GroupInfo) -> (r: Self)
        ensures
            opt_view(r.value) == opt_view(g.value),
            r.display_value@ == g.display_value@,
            r.count == g.count,
            r.is_collapsed == g.is_collapsed,
    {
        GroupInfoDto { value: g.value, display_value: g.display_value, count: g.count, is_collapsed: g.is_collapsed }
    }
}

/// A view's settings as the frontend receives them.
#[derive(Debug)]
pub struct ViewDto {
    /// The view ID.
    pub id: String,
    /// The owning database's ID.
    pub database_id: String,
    /// The name.
    pub name: String,
    /// The layout.
    pub view_type: ViewType,
    /// The sort conditions, primary first.
    pub sort_conditions: Vec<SortConditionDto>,
    /// The filter conditions.
    pub filter_conditions: Vec<FilterConditionDto>,
    /// The group condition, if any.
    pub group_condition: Option<GroupConditionDto>,
    /// The keys of the collapsed groups.
    pub collapsed_groups: Vec<String>,
    /// The creation time.
    pub created_at: String,
    /// The last update time.
    pub updated_at: String,
}

impl ViewDto {
    /// The record of a view.
    pub fn from(view: &View) -> (r: Self)
        ensures
            r.id@ == uuid_text(view.spec_id()@),
            r.database_id@ == uuid_text(view.spec_database_id()@),
            r.name@ == view.spec_name(),
            r.view_type == view.spec_view_type(),
            r.sort_conditions@.len() == view.spec_sorts().len(),
            forall|i: int| 0 <= i < r.sort_conditions@.len() ==> (#[trigger] r.sort_conditions@[i]).property_id@
                == uuid_text(view.spec_sorts()[i].property_id@) && r.sort_conditions@[i].direction == view.spec_sorts()[i].direction,
            r.filter_conditions@.len() == view.spec_filters().len(),
            forall|i: int| 0 <= i < r.filter_conditions@.len() ==> filter_record(#[trigger] r.filter_conditions@[i], view.spec_filters()[i]),
            match (r.group_condition, view.spec_group()) {
                (Some(d), Some(g)) => d.property_id@ == uuid_text(g.property_id@),
                (None, None) => true,
                _ => false,
            },
            text_set(r.collapsed_groups@) == view.spec_collapsed(),
            distinct_texts(r.collapsed_groups@),
            r.created_at@ == time_text(view.spec_created_at()),
            r.updated_at@ == time_text(view.spec_updated_at()),
    {
        let sorts = view.sort_conditions();
        let mut sort_conditions: Vec<SortConditionDto> = Vec::new();
        let mut i: usize = 0;
        while i < sorts.len()
            invariant
                sorts@ == view.spec_sorts(),
                i <= sorts@.len(),
                sort_conditions@.len() == i,
                forall|j: int| 0 <= j < i ==> (#[trigger] sort_conditions@[j]).property_id@ == uuid_text(sorts@[j].property_id@)
                    && sort_conditions@[j].direction == sorts@[j].direction,
            decreases sorts@.len() - i,
        {
            sort_conditions.push(SortConditionDto::from(&sorts[i]));
            i = i + 1;
        }
        let filters = view.filter_conditions();
        let mut filter_conditions: Vec<FilterConditionDto> = Vec::new();
        let mut i: usize = 0;
        while i < filters.len()
            invariant
                filters@ == view.spec_filters(),
                i <= filters@.len(),
                filter_conditions@.len() == i,
                forall|j: int| 0 <= j < i ==> filter_record(#[trigger] filter_conditions@[j], filters@[j]),
            decreases filters@.len() - i,
        {
            filter_conditions.push(FilterConditionDto::from(&filters[i]));
            i = i + 1;
        }
        let group_condition = match view.group_condition() {
            Some(g) => Some(GroupConditionDto::from(g)),
            None => None,
        };
        let keys = view.collapsed_groups();
        let mut collapsed_groups: Vec<String> = Vec::new();
        let mut i: usize = 0;
        while i < keys.len()
            invariant
                i <= keys@.len(),
                collapsed_groups@.len() == i,
                forall|j: int| 0 <= j < i ==> (#[trigger] collapsed_groups@[j])@ == keys@[j]@,
            decreases keys@.len() - i,
        {
            collapsed_groups.push(keys[i].clone());
            i = i + 1;
        }
        proof {
            assert forall|k: Seq<char>| text_set(collapsed_groups@).contains(k) <==> text_set(keys@).contains(k) by {
                if text_set(collapsed_groups@).contains(k) {
                    let j = choose|j: int| 0 <= j < collapsed_groups@.len() && collapsed_groups@[j]@ == k;
                    assert(keys@[j]@ == k);
                }
                if text_set(keys@).contains(k) {
                    let j = choose|j: int| 0 <= j < keys@.len() && keys@[j]@ == k;
                    assert(collapsed_groups@[j]@ == k);
                }
            }
            assert(text_set(collapsed_groups@) =~= text_set(keys@));
            assert forall|a: int, b: int| 0 <= a < b < collapsed_groups@.len() implies collapsed_groups@[a]@ != collapsed_groups@[b]@ by {
                assert(collapsed_groups@[a]@ == keys@[a]@ && collapsed_groups@[b]@ == keys@[b]@);
            }
        }
        ViewDto {
            id: view.id().to_string(),
            database_id: view.database_id().to_string(),
            name: String::from_str(view.name().as_str()),
            view_type: view.view_type(),
            sort_conditions,
            filter_conditions,
            group_condition,
            collapsed_groups,
            created_at: view.created_at().to_rfc3339(),
            updated_at: view.updated_at().to_rfc3339(),
        }
    }
}

} // verus!
