//! Table views: the sort, filter and group settings a database is shown with.

use vstd::prelude::*;
use vstd::view::View as _;
use crate::ids::{DatabaseId, PropertyId, ViewId, uuid_text, uuid_version};
use crate::text::{trim, trim_and_count, usize_text, decimal, concat2, concat3, concat5, text_eq};
use crate::time::Timestamp;

verus! {

/// Maximum number of sort conditions a view may contain.
pub const MAX_SORT_CONDITIONS: usize = 5;

/// Maximum number of filter conditions a view may contain.
pub const MAX_FILTER_CONDITIONS: usize = 20;

/// Maximum number of characters allowed in a view name.
pub const MAX_VIEW_NAME_LENGTH: usize = 100;

/// Errors originating from the View domain model.
#[derive(Debug, Clone, PartialEq)]
pub enum ViewError {
    /// No view was found for the given database.
    ViewNotFound {
        /// The view ID that was looked up.
        id: ViewId,
    },
    /// A sort condition (or a view name) failed validation.
    InvalidSortCondition {
        /// Description of the validation failure.
        reason: String,
    },
    /// Too many sort conditions.
    TooManySortConditions {
        /// Actual condition count.
        count: usize,
        /// Maximum allowed count.
        max: usize,
    },
    /// A filter operator is incompatible with the property type.
    InvalidFilterOperator {
        /// The operator that was rejected.
        operator: String,
        /// The property type that was checked.
        property_type: String,
    },
    /// A filter value type does not match the expected type.
    InvalidFilterValue {
        /// Description of the value type error.
        reason: String,
    },
    /// Too many filter conditions.
    TooManyFilterConditions {
        /// Actual condition count.
        count: usize,
        /// Maximum allowed count.
        max: usize,
    },
    /// A referenced property does not exist.
    PropertyNotFound {
        /// The property ID that was not found.
        id: PropertyId,
    },
    /// A group collapse/expand was attempted without an active group condition.
    NoGroupCondition,
    /// Duplicate property ID in sort conditions.
    DuplicateSortProperty {
        /// The property ID that appeared more than once.
        id: PropertyId,
    },
}

/// The message describing a view error.
pub open spec fn view_error_message(e: ViewError) -> Seq<char> {
    match e {
        ViewError::ViewNotFound { id } => "view not found: "@ + uuid_text(id@),
        ViewError::InvalidSortCondition { reason } => "invalid sort condition: "@ + reason@,
        ViewError::TooManySortConditions { count, max } => "too many sort conditions: "@ + decimal(
            count as int,
        ) + " (max "@ + decimal(max as int) + ")"@,
        ViewError::InvalidFilterOperator { operator, property_type } => "invalid filter operator '"@
            + operator@ + "' for property type '"@ + property_type@ + "'"@,
        ViewError::InvalidFilterValue { reason } => "invalid filter value: "@ + reason@,
        ViewError::TooManyFilterConditions { count, max } => "too many filter conditions: "@
            + decimal(count as int) + " (max "@ + decimal(max as int) + ")"@,
        ViewError::PropertyNotFound { id } => "property not found: "@ + uuid_text(id@),
        ViewError::NoGroupCondition => "no group condition is set for the view"@,
        ViewError::DuplicateSortProperty { id } => "duplicate sort property: "@ + uuid_text(id@),
    }
}

impl ViewError {
    /// The message describing the error.
    pub fn to_string(&self) -> (r: String)
        ensures
            r@ == view_error_message(*self),
    {
        match self {
            ViewError::ViewNotFound { id } => {
                let a = id.to_string();
                concat2("view not found: ", a.as_str())
            },
            ViewError::InvalidSortCondition { reason } => concat2("invalid sort condition: ", reason.as_str()),
            ViewError::TooManySortConditions { count, max } => {
                let a = usize_text(*count);
                let b = usize_text(*max);
                concat5("too many sort conditions: ", a.as_str(), " (max ", b.as_str(), ")")
            },
            ViewError::InvalidFilterOperator { operator, property_type } => concat5(
                "invalid filter operator '",
                operator.as_str(),
                "' for property type '",
                property_type.as_str(),
                "'",
            ),
            ViewError::InvalidFilterValue { reason } => concat2("invalid filter value: ", reason.as_str()),
            ViewError::TooManyFilterConditions { count, max } => {
                let a = usize_text(*count);
                let b = usize_text(*max);
                concat5("too many filter conditions: ", a.as_str(), " (max ", b.as_str(), ")")
            },
            ViewError::PropertyNotFound { id } => {
                let a = id.to_string();
                concat2("property not found: ", a.as_str())
            },
            ViewError::NoGroupCondition => String::from_str("no group condition is set for the view"),
            ViewError::DuplicateSortProperty { id } => {
                let a = id.to_string();
                concat2("duplicate sort property: ", a.as_str())
            },
        }
    }
}

/// The reason given for a view name that is too long.
pub open spec fn name_too_long_reason(len: int) -> Seq<char> {
    "view name too long: "@ + decimal(len) + " characters (max 100)"@
}

/// A validated view name (1–100 Unicode characters after trimming).
#[derive(Debug, Clone, PartialEq, Eq)]
pub struct ViewName(String);

impl vstd::view::View for ViewName {
    type V = Seq<char>;

    closed spec fn view(&self) -> Seq<char> {
        self.0@
    }
}

impl ViewName {
    /// Returns the inner string slice.
    pub fn as_str(&self) -> (r: &str)
        ensures
            r@ == self@,
    {
        self.0.as_str()
    }

    /// Creates a [`ViewName`] after trimming and validating the input.
    ///
    /// # Errors
    ///
    /// [`ViewError::InvalidSortCondition`] if the trimmed name is empty or
    /// longer than 100 characters.
    pub fn try_from(value: String) -> (r: Result<Self, ViewError>)
        ensures
            match r {
                Ok(n) => 0 < trim(value@).len() <= MAX_VIEW_NAME_LENGTH && n@ == trim(value@),
                Err(e) => e matches ViewError::InvalidSortCondition { reason } && if trim(
                    value@,
                ).len() == 0 {
                    reason@ == "view name must not be empty"@
                } else {
                    trim(value@).len() > MAX_VIEW_NAME_LENGTH && reason@ == name_too_long_reason(
                        trim(value@).len() as int,
                    )
                },
            },
    {
        let (trimmed, len) = trim_and_count(value.as_str());
        if len == 0 {
            return Err(
                ViewError::InvalidSortCondition {
                    reason: String::from_str("view name must not be empty"),
                },
            );
        }
        if len > MAX_VIEW_NAME_LENGTH {
            let n = usize_text(len);
            return Err(
                ViewError::InvalidSortCondition {
                    reason: concat3("view name too long: ", n.as_str(), " characters (max 100)"),
                },
            );
        }
        Ok(ViewName(trimmed))
    }
}

/// The type of view layout.
#[derive(Debug, Clone, Copy, PartialEq, Eq, Structural)]
pub enum ViewType {
    /// Standard table layout.
    Table,
}

impl ViewType {
    /// The name of the layout, `"table"`.
    pub fn to_string(&self) -> (r: String)
        ensures
            r@ == "table"@,
    {
        String::from_str("table")
    }
}

/// The direction for sorting rows.
#[derive(Debug, Clone, Copy, PartialEq, Eq, Structural)]
pub enum SortDirection {
    /// Sort in ascending order.
    Ascending,
    /// Sort in descending order.
    Descending,
}

/// A single sort condition referencing a property and direction.
#[derive(Debug, Clone, Copy, PartialEq, Eq, Structural)]
pub struct SortCondition {
    /// The property to sort by.
    pub property_id: PropertyId,
    /// The sort direction.
    pub direction: SortDirection,
}

/// Filter comparison operators.
#[derive(Debug, Clone, Copy, PartialEq, Eq, Structural)]
pub enum FilterOperator {
    /// Exact equality (case-insensitive for text).
    Equals,
    /// Not equal (case-insensitive for text).
    NotEquals,
    /// Contains substring (case-insensitive for text).
    Contains,
    /// Does not contain substring (case-insensitive for text).
    NotContains,
    /// Greater than.
    GreaterThan,
    /// Less than.
    LessThan,
    /// Greater than or equal.
    GreaterOrEqual,
    /// Less than or equal.
    LessOrEqual,
    /// Before a date (exclusive).
    Before,
    /// After a date (inclusive).
    After,
    /// Is a specific option.
    Is,
    /// Is not a specific option.
    IsNot,
    /// Checkbox is checked.
    IsChecked,
    /// Checkbox is unchecked.
    IsUnchecked,
    /// Value is empty (null).
    IsEmpty,
    /// Value is not empty (not null).
    IsNotEmpty,
}

/// The camel-case name of an operator, as the frontend spells it.
pub open spec fn operator_name(op: FilterOperator) -> Seq<char> {
    match op {
        FilterOperator::Equals => "equals"@,
        FilterOperator::NotEquals => "notEquals"@,
        FilterOperator::Contains => "contains"@,
        FilterOperator::NotContains => "notContains"@,
        FilterOperator::GreaterThan => "greaterThan"@,
        FilterOperator::LessThan => "lessThan"@,
        FilterOperator::GreaterOrEqual => "greaterOrEqual"@,
        FilterOperator::LessOrEqual => "lessOrEqual"@,
        FilterOperator::Before => "before"@,
        FilterOperator::After => "after"@,
        FilterOperator::Is => "is"@,
        FilterOperator::IsNot => "isNot"@,
        FilterOperator::IsChecked => "isChecked"@,
        FilterOperator::IsUnchecked => "isUnchecked"@,
        FilterOperator::IsEmpty => "isEmpty"@,
        FilterOperator::IsNotEmpty => "isNotEmpty"@,
    }
}

impl FilterOperator {
    /// The camel-case name of the operator.
    pub fn to_string(&self) -> (r: String)
        ensures
            r@ == operator_name(*self),
    {
        let s = match self {
            FilterOperator::Equals => "equals",
            FilterOperator::NotEquals => "notEquals",
            FilterOperator::Contains => "contains",
            FilterOperator::NotContains => "notContains",
            FilterOperator::GreaterThan => "greaterThan",
            FilterOperator::LessThan => "lessThan",
            FilterOperator::GreaterOrEqual => "greaterOrEqual",
            FilterOperator::LessOrEqual => "lessOrEqual",
            FilterOperator::Before => "before",
            FilterOperator::After => "after",
            FilterOperator::Is => "is",
            FilterOperator::IsNot => "isNot",
            FilterOperator::IsChecked => "isChecked",
            FilterOperator::IsUnchecked => "isUnchecked",
            FilterOperator::IsEmpty => "isEmpty",
            FilterOperator::IsNotEmpty => "isNotEmpty",
        };
        String::from_str(s)
    }
}

/// A type-safe filter comparison value. A number is held as the bit
/// pattern of an IEEE 754 double.
#[derive(Debug, Clone, PartialEq)]
pub enum FilterValue {
    /// Text comparison value.
    Text(String),
    /// Numeric comparison value (bits of an `f64`).
    Number(u64),
    /// Date comparison value (ISO 8601 string).
    Date(String),
    /// Select option comparison value.
    SelectOption(String),
}

/// A single filter condition referencing a property, operator, and optional value.
#[derive(Debug, Clone, PartialEq)]
pub struct FilterCondition {
    /// The property to filter by.
    pub property_id: PropertyId,
    /// The filter operator.
    pub operator: FilterOperator,
    /// The comparison value (None for IsEmpty/IsNotEmpty/IsChecked/IsUnchecked).
    pub value: Option<FilterValue>,
}

/// A grouping condition referencing a single property.
#[derive(Debug, Clone, Copy, PartialEq, Eq, Structural)]
pub struct GroupCondition {
    /// The property to group by.
    pub property_id: PropertyId,
}

/// Whether the sort condition at `j` names a property that an earlier one names.
pub open spec fn repeats_earlier(s: Seq<SortCondition>, j: int) -> bool {
    exists|i: int| 0 <= i < j && #[trigger] s[i].property_id == s[j].property_id
}

/// The first sort condition that repeats an earlier one's property, if any.
pub open spec fn first_repeat(s: Seq<SortCondition>, j: int) -> bool {
    &&& 0 <= j < s.len()
    &&& repeats_earlier(s, j)
    &&& forall|k: int| 0 <= k < j ==> !repeats_earlier(s, k)
}

/// Whether no two strings of the sequence hold the same text.
pub open spec fn distinct_texts(s: Seq<String>) -> bool {
    forall|i: int, j: int| 0 <= i < j < s.len() ==> s[i]@ != s[j]@
}

/// The set of texts of a sequence of strings.
pub open spec fn text_set(s: Seq<String>) -> Set<Seq<char>> {
    Set::new(|k: Seq<char>| exists|i: int| 0 <= i < s.len() && s[i]@ == k)
}

/// The collapsed set after toggling `key`: removed if present, else added.
pub open spec fn toggled(set: Set<Seq<char>>, key: Seq<char>) -> Set<Seq<char>> {
    if set.contains(key) {
        set.remove(key)
    } else {
        set.insert(key)
    }
}

/// Whether a sort condition does not name `pid`.
pub open spec fn sort_keeps(pid: PropertyId) -> spec_fn(SortCondition) -> bool {
    |c: SortCondition| c.property_id != pid
}

/// Whether a filter condition does not name `pid`.
pub open spec fn filter_keeps(pid: PropertyId) -> spec_fn(FilterCondition) -> bool {
    |c: FilterCondition| c.property_id != pid
}

/// Filtering the first `i + 1` items adds the item at `i` to filtering the
/// first `i`, if it passes.
pub proof fn lemma_filter_step<A>(s: Seq<A>, i: int, p: spec_fn(A) -> bool)
    requires
        0 <= i < s.len(),
    ensures
        s.take(i + 1).filter(p) == if p(s[i]) {
            s.take(i).filter(p).push(s[i])
        } else {
            s.take(i).filter(p)
        },
{
    reveal(Seq::filter);
    assert(s.take(i + 1).drop_last() =~= s.take(i));
}

/// The index of the string holding `key`, if one does.
pub fn position_of_text(v: &[String], key: &str) -> (r: Option<usize>)
    ensures
        match r {
            Some(i) => i < v@.len() && v@[i as int]@ == key@ && forall|j: int|
                0 <= j < i ==> v@[j]@ != key@,
            None => forall|j: int| 0 <= j < v@.len() ==> v@[j]@ != key@,
        },
{
    let mut i: usize = 0;
    while i < v.len()
        invariant
            i <= v@.len(),
            forall|j: int| 0 <= j < i ==> v@[j]@ != key@,
        decreases v@.len() - i,
    {
        if text_eq(v[i].as_str(), key) {
            return Some(i);
        }
        i = i + 1;
    }
    None
}

/// A view entity: the display settings (sort, filter, group) of a database.
#[derive(Debug)]
pub struct View {
    id: ViewId,
    database_id: DatabaseId,
    name: ViewName,
    view_type: ViewType,
    sort_conditions: Vec<SortCondition>,
    filter_conditions: Vec<FilterCondition>,
    group_condition: Option<GroupCondition>,
    collapsed_groups: Vec<String>,
    created_at: Timestamp,
    updated_at: Timestamp,
}

impl Clone for View {
    /// A copy of the view: the same identity, name, layout, sort and group
    /// conditions, collapsed groups and timestamps, and a clone of each
    /// filter condition.
    fn clone(&self) -> (r: Self)
        ensures
            r.same_identity(self),
            r.spec_sorts() == self.spec_sorts(),
            r.spec_filters().len() == self.spec_filters().len(),
            r.spec_group() == self.spec_group(),
            r.spec_collapsed() == self.spec_collapsed(),
            r.spec_updated_at() == self.spec_updated_at(),
    {
        proof {
            use_type_invariant(self);
        }
        let collapsed = self.collapsed_groups.clone();
        assert(collapsed@ =~= self.collapsed_groups@);
        let sorts = self.sort_conditions.clone();
        assert(sorts@ =~= self.sort_conditions@);
        View {
            id: self.id,
            database_id: self.database_id,
            name: ViewName(self.name.0.clone()),
            view_type: self.view_type,
            sort_conditions: sorts,
            filter_conditions: self.filter_conditions.clone(),
            group_condition: self.group_condition,
            collapsed_groups: collapsed,
            created_at: self.created_at,
            updated_at: self.updated_at,
        }
    }
}

impl View {
    /// The collapsed group keys are pairwise distinct.
    #[verifier::type_invariant]
    pub closed spec fn wf(&self) -> bool {
        distinct_texts(self.collapsed_groups@)
    }

    /// The view's identifier.
    pub closed spec fn spec_id(&self) -> ViewId {
        self.id
    }

    /// The owning database's identifier.
    pub closed spec fn spec_database_id(&self) -> DatabaseId {
        self.database_id
    }

    /// The view's name.
    pub closed spec fn spec_name(&self) -> Seq<char> {
        self.name@
    }

    /// The view's layout.
    pub closed spec fn spec_view_type(&self) -> ViewType {
        self.view_type
    }

    /// The sort conditions, primary first.
    pub closed spec fn spec_sorts(&self) -> Seq<SortCondition> {
        self.sort_conditions@
    }

    /// The filter conditions.
    pub closed spec fn spec_filters(&self) -> Seq<FilterCondition> {
        self.filter_conditions@
    }

    /// The group condition.
    pub closed spec fn spec_group(&self) -> Option<GroupCondition> {
        self.group_condition
    }

    /// The keys of the collapsed groups (the empty text is the null group).
    pub closed spec fn spec_collapsed(&self) -> Set<Seq<char>> {
        text_set(self.collapsed_groups@)
    }

    /// The creation time.
    pub closed spec fn spec_created_at(&self) -> Timestamp {
        self.created_at
    }

    /// The last update time.
    pub closed spec fn spec_updated_at(&self) -> Timestamp {
        self.updated_at
    }

    /// Whether two views have the same identity, name, layout and creation time.
    pub open spec fn same_identity(&self, other: &View) -> bool {
        &&& self.spec_id() == other.spec_id()
        &&& self.spec_database_id() == other.spec_database_id()
        &&& self.spec_name() == other.spec_name()
        &&& self.spec_view_type() == other.spec_view_type()
        &&& self.spec_created_at() == other.spec_created_at()
    }

    /// Creates the default view of a database: named "Table", a table
    /// layout, and no sort, filter or group conditions.
    pub fn new_default(database_id: DatabaseId) -> (r: Self)
        ensures
            r.spec_database_id() == database_id,
            r.spec_name() == "Table"@,
            r.spec_view_type() == ViewType::Table,
            r.spec_sorts().len() == 0,
            r.spec_filters().len() == 0,
            r.spec_group() is None,
            r.spec_collapsed() == Set::<Seq<char>>::empty(),
            r.spec_created_at() == r.spec_updated_at(),
            uuid_version(r.spec_id()@) == 7,
    {
        let now = Timestamp::now();
        let r = View {
            id: ViewId::new(),
            database_id,
            name: ViewName(String::from_str("Table")),
            view_type: ViewType::Table,
            sort_conditions: Vec::new(),
            filter_conditions: Vec::new(),
            group_condition: None,
            collapsed_groups: Vec::new(),
            created_at: now,
            updated_at: now,
        };
        assert(r.spec_collapsed() =~= Set::<Seq<char>>::empty());
        r
    }

    /// Returns a reference to the view's ID.
    pub fn id(&self) -> (r: &ViewId)
        ensures
            *r == self.spec_id(),
    {
        &self.id
    }

    /// Returns a reference to the owning database's ID.
    pub fn database_id(&self) -> (r: &DatabaseId)
        ensures
            *r == self.spec_database_id(),
    {
        &self.database_id
    }

    /// Returns a reference to the view's name.
    pub fn name(&self) -> (r: &ViewName)
        ensures
            r@ == self.spec_name(),
    {
        &self.name
    }

    /// Returns the view's layout.
    pub fn view_type(&self) -> (r: ViewType)
        ensures
            r == self.spec_view_type(),
    {
        self.view_type
    }

    /// Returns the sort conditions, primary first.
    pub fn sort_conditions(&self) -> (r: &[SortCondition])
        ensures
            r@ == self.spec_sorts(),
    {
        self.sort_conditions.as_slice()
    }

    /// Returns the filter conditions.
    pub fn filter_conditions(&self) -> (r: &[FilterCondition])
        ensures
            r@ == self.spec_filters(),
    {
        self.filter_conditions.as_slice()
    }

    /// Returns the group condition, if one is set.
    pub fn group_condition(&self) -> (r: Option<&GroupCondition>)
        ensures
            match r {
                Some(g) => self.spec_group() == Some(*g),
                None => self.spec_group() is None,
            },
    {
        match &self.group_condition {
            Some(g) => Some(g),
            None => None,
        }
    }

    /// Returns the keys of the collapsed groups, each once.
    pub fn collapsed_groups(&self) -> (r: &[String])
        ensures
            text_set(r@) == self.spec_collapsed(),
            distinct_texts(r@),
    {
        proof {
            use_type_invariant(self);
        }
        self.collapsed_groups.as_slice()
    }

    /// Returns the creation timestamp.
    pub fn created_at(&self) -> (r: Timestamp)
        ensures
            r == self.spec_created_at(),
    {
        self.created_at
    }

    /// Returns the last-updated timestamp.
    pub fn updated_at(&self) -> (r: Timestamp)
        ensures
            r == self.spec_updated_at(),
    {
        self.updated_at
    }

    /// Validates and sets new sort conditions: at most five, each naming a
    /// different property. On an error the view is unchanged.
    ///
    /// # Errors
    ///
    /// - [`ViewError::TooManySortConditions`] if more than 5 conditions.
    /// - [`ViewError::DuplicateSortProperty`] with the property of the first
    ///   condition that repeats an earlier one's.
    pub fn set_sort_conditions(&mut self, conditions: Vec<SortCondition>) -> (r: Result<(), ViewError>)
        ensures
            final(self).same_identity(old(self)),
            match r {
                Ok(()) => {
                    &&& conditions@.len() <= MAX_SORT_CONDITIONS
                    &&& forall|j: int| 0 <= j < conditions@.len() ==> !repeats_earlier(conditions@, j)
                    &&& final(self).spec_sorts() == conditions@
                    &&& final(self).spec_filters() == old(self).spec_filters()
                    &&& final(self).spec_group() == old(self).spec_group()
                    &&& final(self).spec_collapsed() == old(self).spec_collapsed()
                },
                Err(e) => {
                    &&& *final(self) == *old(self)
                    &&& if conditions@.len() > MAX_SORT_CONDITIONS {
                        e == (ViewError::TooManySortConditions {
                            count: conditions@.len() as usize,
                            max: MAX_SORT_CONDITIONS,
                        })
                    } else {
                        exists|j: int| first_repeat(conditions@, j) && e == (ViewError::DuplicateSortProperty {
                            id: conditions@[j].property_id,
                        })
                    }
                },
            },
    {
        proof {
            use_type_invariant(&*self);
        }
        let n = conditions.len();
        if n > MAX_SORT_CONDITIONS {
            return Err(ViewError::TooManySortConditions { count: n, max: MAX_SORT_CONDITIONS });
        }
        let mut j: usize = 0;
        while j < n
            invariant
                n == conditions@.len(),
                n <= MAX_SORT_CONDITIONS,
                j <= n,
                forall|k: int| 0 <= k < j ==> !repeats_earlier(conditions@, k),
                *self == *old(self),
            decreases n - j,
        {
            let mut i: usize = 0;
            while i < j
                invariant
                    n == conditions@.len(),
                    n <= MAX_SORT_CONDITIONS,
                    i <= j < n,
                    forall|k: int| 0 <= k < i ==> conditions@[k].property_id != conditions@[j as int].property_id,
                    forall|k: int| 0 <= k < j ==> !repeats_earlier(conditions@, k),
                    *self == *old(self),
                decreases j - i,
            {
                if conditions[i].property_id == conditions[j].property_id {
                    proof {
                        assert(repeats_earlier(conditions@, j as int));
                        assert(first_repeat(conditions@, j as int));
                    }
                    return Err(ViewError::DuplicateSortProperty { id: conditions[j].property_id });
                }
                i = i + 1;
            }
            j = j + 1;
        }
        self.sort_conditions = conditions;
        self.updated_at = Timestamp::now();
        Ok(())
    }

    /// Validates and sets new filter conditions: at most twenty. On an
    /// error the view is unchanged.
    ///
    /// # Errors
    ///
    /// [`ViewError::TooManyFilterConditions`] if more than 20 conditions.
    pub fn set_filter_conditions(&mut self, conditions: Vec<FilterCondition>) -> (r: Result<(), ViewError>)
        ensures
            final(self).same_identity(old(self)),
            match r {
                Ok(()) => {
                    &&& conditions@.len() <= MAX_FILTER_CONDITIONS
                    &&& final(self).spec_filters() == conditions@
                    &&& final(self).spec_sorts() == old(self).spec_sorts()
                    &&& final(self).spec_group() == old(self).spec_group()
                    &&& final(self).spec_collapsed() == old(self).spec_collapsed()
                },
                Err(e) => {
                    &&& *final(self) == *old(self)
                    &&& conditions@.len() > MAX_FILTER_CONDITIONS
                    &&& e == (ViewError::TooManyFilterConditions {
                        count: conditions@.len() as usize,
                        max: MAX_FILTER_CONDITIONS,
                    })
                },
            },
    {
        proof {
            use_type_invariant(&*self);
        }
        let n = conditions.len();
        if n > MAX_FILTER_CONDITIONS {
            return Err(ViewError::TooManyFilterConditions { count: n, max: MAX_FILTER_CONDITIONS });
        }
        self.filter_conditions = conditions;
        self.updated_at = Timestamp::now();
        Ok(())
    }

    /// Sets or clears the group condition. When the condition changes, no
    /// group stays collapsed.
    pub fn set_group_condition(&mut self, condition: Option<GroupCondition>)
        ensures
            final(self).same_identity(old(self)),
            final(self).spec_group() == condition,
            final(self).spec_sorts() == old(self).spec_sorts(),
            final(self).spec_filters() == old(self).spec_filters(),
            final(self).spec_collapsed() == if old(self).spec_group() == condition {
                old(self).spec_collapsed()
            } else {
                Set::<Seq<char>>::empty()
            },
    {
        proof {
            use_type_invariant(&*self);
        }
        let changed = match (self.group_condition, condition) {
            (Some(a), Some(b)) => a.property_id != b.property_id,
            (None, None) => false,
            _ => true,
        };
        self.group_condition = condition;
        if changed {
            self.collapsed_groups = Vec::new();
            assert(text_set(self.collapsed_groups@) =~= Set::<Seq<char>>::empty());
        }
        self.updated_at = Timestamp::now();
    }

    /// Toggles a group's collapsed state; `None` stands for the null group,
    /// whose key is the empty text. On an error the view is unchanged.
    ///
    /// # Errors
    ///
    /// [`ViewError::NoGroupCondition`] if no group condition is set.
    pub fn toggle_collapsed_group(&mut self, group_value: Option<String>) -> (r: Result<(), ViewError>)
        ensures
            final(self).same_identity(old(self)),
            match r {
                Ok(()) => {
                    &&& old(self).spec_group() is Some
                    &&& final(self).spec_collapsed() == toggled(
                        old(self).spec_collapsed(),
                        match group_value {
                            Some(s) => s@,
                            None => Seq::<char>::empty(),
                        },
                    )
                    &&& final(self).spec_sorts() == old(self).spec_sorts()
                    &&& final(self).spec_filters() == old(self).spec_filters()
                    &&& final(self).spec_group() == old(self).spec_group()
                },
                Err(e) => old(self).spec_group() is None && e == ViewError::NoGroupCondition
                    && *final(self) == *old(self),
            },
    {
        proof {
            use_type_invariant(&*self);
        }
        if self.group_condition.is_none() {
            return Err(ViewError::NoGroupCondition);
        }
        let key = match group_value {
            Some(s) => s,
            None => String::new(),
        };
        let ghost old_keys = self.collapsed_groups@;
        let ghost kv = key@;
        match position_of_text(self.collapsed_groups.as_slice(), key.as_str()) {
            Some(p) => {
                let mut keys = self.collapsed_groups.clone();
                assert(keys@ =~= old_keys);
                keys.remove(p);
                proof {
                    assert(keys@ =~= old_keys.remove(p as int));
                    assert forall|a: int, b: int| 0 <= a < b < keys@.len() implies keys@[a]@
                        != keys@[b]@ by {
                        if a < p {
                            if b < p {
                                assert(keys@[b] == old_keys[b]);
                            } else {
                                assert(keys@[b] == old_keys[b + 1]);
                            }
                        } else {
                            assert(keys@[a] == old_keys[a + 1] && keys@[b] == old_keys[b + 1]);
                        }
                    }
                    assert forall|k: Seq<char>| text_set(keys@).contains(k) <==> text_set(
                        old_keys,
                    ).remove(kv).contains(k) by {
                        if text_set(keys@).contains(k) {
                            let j = choose|j: int| 0 <= j < keys@.len() && keys@[j]@ == k;
                            if j < p {
                                assert(old_keys[j] == keys@[j]);
                                assert(old_keys[j]@ != old_keys[p as int]@);
                            } else {
                                assert(old_keys[j + 1] == keys@[j]);
                                assert(old_keys[j + 1]@ != old_keys[p as int]@);
                            }
                        }
                        if text_set(old_keys).remove(kv).contains(k) {
                            let j = choose|j: int| 0 <= j < old_keys.len() && old_keys[j]@ == k;
                            assert(j != p);
                            if j < p {
                                assert(keys@[j] == old_keys[j]);
                            } else {
                                assert(keys@[j - 1] == old_keys[j]);
                            }
                        }
                    }
                    assert(text_set(keys@) =~= text_set(old_keys).remove(kv));
                }
                self.collapsed_groups = keys;
            },
            None => {
                let ghost kk = key@;
                let mut grown = self.collapsed_groups.clone();
                assert(grown@ =~= old_keys);
                grown.push(key);
                proof {
                    let keys = grown@;
                    assert forall|a: int, b: int| 0 <= a < b < keys.len() implies keys[a]@
                        != keys[b]@ by {
                        if b == keys.len() - 1 {
                            assert(old_keys[a]@ != kk);
                        } else {
                            assert(old_keys[a] == keys[a] && old_keys[b] == keys[b]);
                        }
                    }
                    assert forall|k: Seq<char>| text_set(keys).contains(k) <==> text_set(
                        old_keys,
                    ).insert(kk).contains(k) by {
                        if text_set(keys).contains(k) {
                            let j = choose|j: int| 0 <= j < keys.len() && keys[j]@ == k;
                            if j < old_keys.len() {
                                assert(old_keys[j] == keys[j]);
                            }
                        }
                        if text_set(old_keys).contains(k) {
                            let j = choose|j: int| 0 <= j < old_keys.len() && old_keys[j]@ == k;
                            assert(keys[j] == old_keys[j]);
                        }
                        if k == kk {
                            assert(keys[keys.len() - 1]@ == kk);
                        }
                    }
                    assert(!text_set(old_keys).contains(kk));
                    assert(text_set(keys) =~= text_set(old_keys).insert(kk));
                }
                self.collapsed_groups = grown;
            },
        }
        self.updated_at = Timestamp::now();
        Ok(())
    }

    /// Resets all view settings to defaults: no sort, filter or group
    /// condition and no collapsed group.
    pub fn reset(&mut self)
        ensures
            final(self).same_identity(old(self)),
            final(self).spec_sorts().len() == 0,
            final(self).spec_filters().len() == 0,
            final(self).spec_group() is None,
            final(self).spec_collapsed() == Set::<Seq<char>>::empty(),
    {
        proof {
            use_type_invariant(&*self);
        }
        self.sort_conditions = Vec::new();
        self.filter_conditions = Vec::new();
        self.group_condition = None;
        self.collapsed_groups = Vec::new();
        assert(text_set(self.collapsed_groups@) =~= Set::<Seq<char>>::empty());
        self.updated_at = Timestamp::now();
    }

    /// Removes every sort and filter condition naming `property_id`, and the
    /// group condition if it names it (then no group stays collapsed).
    /// Returns whether anything was removed.
    pub fn remove_property_references(&mut self, property_id: &PropertyId) -> (r: bool)
        ensures
            final(self).same_identity(old(self)),
            final(self).spec_sorts() == old(self).spec_sorts().filter(sort_keeps(*property_id)),
            final(self).spec_filters() == old(self).spec_filters().filter(filter_keeps(*property_id)),
            if old(self).spec_group() == Some(GroupCondition { property_id: *property_id }) {
                final(self).spec_group() is None && final(self).spec_collapsed() == Set::<Seq<char>>::empty()
            } else {
                final(self).spec_group() == old(self).spec_group() && final(self).spec_collapsed()
                    == old(self).spec_collapsed()
            },
            r == ((exists|i: int| 0 <= i < old(self).spec_sorts().len()
                && #[trigger] old(self).spec_sorts()[i].property_id == *property_id) || (exists|i: int|
                0 <= i < old(self).spec_filters().len() && #[trigger] old(self).spec_filters()[i].property_id
                == *property_id) || old(self).spec_group() == Some(GroupCondition { property_id: *property_id })),
            !r ==> final(self).spec_updated_at() == old(self).spec_updated_at(),
    {
        proof {
            use_type_invariant(&*self);
        }
        let pid = *property_id;
        let ghost sorts = self.sort_conditions@;
        let ghost filters = self.filter_conditions@;
        let mut kept_sorts: Vec<SortCondition> = Vec::new();
        let mut sort_removed = false;
        let mut i: usize = 0;
        while i < self.sort_conditions.len()
            invariant
                self.sort_conditions@ == sorts,
                i <= sorts.len(),
                kept_sorts@ == sorts.take(i as int).filter(sort_keeps(pid)),
                sort_removed == exists|k: int| 0 <= k < i && #[trigger] sorts[k].property_id == pid,
            decreases sorts.len() - i,
        {
            let c = self.sort_conditions[i];
            proof {
                lemma_filter_step(sorts, i as int, sort_keeps(pid));
            }
            if c.property_id != pid {
                kept_sorts.push(c);
            } else {
                sort_removed = true;
            }
            i = i + 1;
        }
        assert(sorts.take(sorts.len() as int) =~= sorts);
        let mut rest: Vec<FilterCondition> = Vec::new();
        std::mem::swap(&mut rest, &mut self.filter_conditions);
        let mut kept_filters: Vec<FilterCondition> = Vec::new();
        let mut filter_removed = false;
        let ghost mut done: int = 0;
        while rest.len() > 0
            invariant
                0 <= done <= filters.len(),
                rest@ == filters.skip(done),
                kept_filters@ == filters.take(done).filter(filter_keeps(pid)),
                filter_removed == exists|k: int| 0 <= k < done && #[trigger] filters[k].property_id == pid,
            decreases rest@.len(),
        {
            let c = rest.remove(0);
            proof {
                assert(c == filters[done]);
                lemma_filter_step(filters, done, filter_keeps(pid));
            }
            if c.property_id != pid {
                kept_filters.push(c);
            } else {
                filter_removed = true;
            }
            proof {
                done = done + 1;
                assert(rest@ =~= filters.skip(done));
            }
        }
        assert(filters.take(filters.len() as int) =~= filters);
        let group_removed = match self.group_condition {
            Some(g) => g.property_id == pid,
            None => false,
        };
        self.sort_conditions = kept_sorts;
        self.filter_conditions = kept_filters;
        if group_removed {
            self.group_condition = None;
            self.collapsed_groups = Vec::new();
            assert(text_set(self.collapsed_groups@) =~= Set::<Seq<char>>::empty());
        }
        let changed = sort_removed || filter_removed || group_removed;
        if changed {
            self.updated_at = Timestamp::now();
        }
        changed
    }

    /// Reconstructs a view from stored fields; repeated collapsed keys are
    /// kept once.
    pub fn from_stored(
        id: ViewId,
        database_id: DatabaseId,
        name: ViewName,
        view_type: ViewType,
        sort_conditions: Vec<SortCondition>,
        filter_conditions: Vec<FilterCondition>,
        group_condition: Option<GroupCondition>,
        collapsed_groups: Vec<String>,
        created_at: Timestamp,
        updated_at: Timestamp,
    ) -> (r: Self)
        ensures
            r.spec_id() == id,
            r.spec_database_id() == database_id,
            r.spec_name() == name@,
            r.spec_view_type() == view_type,
            r.spec_sorts() == sort_conditions@,
            r.spec_filters() == filter_conditions@,
            r.spec_group() == group_condition,
            r.spec_collapsed() == text_set(collapsed_groups@),
            r.spec_created_at() == created_at,
            r.spec_updated_at() == updated_at,
    {
        let mut keys: Vec<String> = Vec::new();
        let mut i: usize = 0;
        while i < collapsed_groups.len()
            invariant
                i <= collapsed_groups@.len(),
                distinct_texts(keys@),
                text_set(keys@) =~= Set::new(
                    |k: Seq<char>| exists|j: int| 0 <= j < i && collapsed_groups@[j]@ == k,
                ),
            decreases collapsed_groups@.len() - i,
        {
            let key = &collapsed_groups[i];
            let ghost old_keys = keys@;
            match position_of_text(keys.as_slice(), key.as_str()) {
                Some(p) => {
                    assert(keys@[p as int]@ == key@);
                    assert(text_set(keys@).contains(key@));
                },
                None => {
                    keys.push(key.clone());
                    proof {
                        assert forall|a: int, b: int| 0 <= a < b < keys@.len() implies keys@[a]@
                            != keys@[b]@ by {
                            if b == keys@.len() - 1 {
                                assert(old_keys[a]@ != key@);
                            } else {
                                assert(old_keys[a] == keys@[a] && old_keys[b] == keys@[b]);
                            }
                        }
                        assert forall|k: Seq<char>| text_set(keys@).contains(k) implies text_set(
                            old_keys,
                        ).contains(k) || k == key@ by {
                            let j = choose|j: int| 0 <= j < keys@.len() && keys@[j]@ == k;
                            if j < old_keys.len() {
                                assert(old_keys[j] == keys@[j]);
                            }
                        }
                        assert forall|k: Seq<char>| text_set(old_keys).contains(k) implies text_set(
                            keys@,
                        ).contains(k) by {
                            let j = choose|j: int| 0 <= j < old_keys.len() && old_keys[j]@ == k;
                            assert(keys@[j] == old_keys[j]);
                        }
                        assert(keys@[keys@.len() - 1]@ == key@);
                        assert(text_set(keys@).contains(key@));
                    }
                },
            }
            proof {
                assert forall|k: Seq<char>| (exists|j: int|
                    0 <= j < i + 1 && collapsed_groups@[j]@ == k) implies text_set(keys@).contains(
                    k,
                ) by {
                    let j = choose|j: int| 0 <= j < i + 1 && collapsed_groups@[j]@ == k;
                    if j < i {
                        assert(exists|j: int| 0 <= j < i && collapsed_groups@[j]@ == k);
                        assert(text_set(old_keys).contains(k));
                    } else {
                        assert(k == key@);
                    }
                }
                assert forall|k: Seq<char>| text_set(keys@).contains(k) implies (exists|j: int|
                    0 <= j < i + 1 && collapsed_groups@[j]@ == k) by {
                    if text_set(old_keys).contains(k) {
                        let j = choose|j: int| 0 <= j < i && collapsed_groups@[j]@ == k;
                        assert(0 <= j < i + 1 && collapsed_groups@[j]@ == k);
                    } else {
                        assert(collapsed_groups@[i as int]@ == k);
                    }
                }
            }
            i = i + 1;
        }
        View {
            id,
            database_id,
            name,
            view_type,
            sort_conditions,
            filter_conditions,
            group_condition,
            collapsed_groups: keys,
            created_at,
            updated_at,
        }
    }
}

/// Toggling the same group twice leaves the collapsed set as it was.
pub proof fn law_toggle_twice(set: Set<Seq<char>>, key: Seq<char>)
    ensures
        toggled(toggled(set, key), key) == set,
{
    assert(toggled(toggled(set, key), key) =~= set);
}

/// After removing a property's references no sort or filter condition names
/// it, every condition naming another property is kept, and removing again
/// finds nothing.
pub proof fn law_removal_leaves_no_reference(
    sorts: Seq<SortCondition>,
    filters: Seq<FilterCondition>,
    pid: PropertyId,
)
    ensures
        forall|i: int| 0 <= i < sorts.filter(sort_keeps(pid)).len()
            ==> #[trigger] sorts.filter(sort_keeps(pid))[i].property_id != pid,
        forall|i: int| 0 <= i < filters.filter(filter_keeps(pid)).len()
            ==> #[trigger] filters.filter(filter_keeps(pid))[i].property_id != pid,
        forall|i: int| 0 <= i < sorts.len() && sorts[i].property_id != pid
            ==> sorts.filter(sort_keeps(pid)).contains(#[trigger] sorts[i]),
        forall|i: int| 0 <= i < filters.len() && filters[i].property_id != pid
            ==> filters.filter(filter_keeps(pid)).contains(#[trigger] filters[i]),
        sorts.filter(sort_keeps(pid)).filter(sort_keeps(pid)) == sorts.filter(sort_keeps(pid)),
        filters.filter(filter_keeps(pid)).filter(filter_keeps(pid)) == filters.filter(
            filter_keeps(pid),
        ),
{
    broadcast use vstd::seq_lib::group_filter_ensures;
    lemma_filter_all_pass(sorts.filter(sort_keeps(pid)), sort_keeps(pid));
    lemma_filter_all_pass(filters.filter(filter_keeps(pid)), filter_keeps(pid));
}

/// Filtering a sequence whose items all pass leaves it unchanged.
pub proof fn lemma_filter_all_pass<A>(s: Seq<A>, p: spec_fn(A) -> bool)
    requires
        forall|i: int| 0 <= i < s.len() ==> p(#[trigger] s[i]),
    ensures
        s.filter(p) == s,
    decreases s.len(),
{
    reveal(Seq::filter);
    if s.len() > 0 {
        lemma_filter_all_pass(s.drop_last(), p);
        assert(s.drop_last().push(s.last()) =~= s);
    }
}

} // verus!
