//! Reading stored records back into entities: the columns of a row, as
//! text, decoded and validated, with the first bad column reported.

use vstd::prelude::*;
use vstd::view::View as _;
use crate::block::{Block, BlockContent, BlockError, BlockPosition, MAX_CONTENT_LENGTH};
use crate::database::{Database, DatabaseError, DatabaseTitle};
use crate::ids::{BlockId, DatabaseId, PageId, PropertyId, PropertyValueId, ViewId, uuid_parsed};
use crate::page::{Page, PageError, PageTitle};
use crate::property::{PropertyConfig, PropertyError, PropertyName, PropertyType, Property, PropertyValue, parse_property_type, property_type_name, opt_view};
use crate::text::trim;
use crate::time::{Timestamp, parsed_datetime};
use crate::view::{FilterCondition, GroupCondition, SortCondition, View, ViewName, ViewType, text_set};

verus! {

/// The first sixteen bytes of every SQLite database file.
pub open spec fn sqlite_magic() -> Seq<u8> {
    seq![0x53u8, 0x51, 0x4c, 0x69, 0x74, 0x65, 0x20, 0x66, 0x6f, 0x72, 0x6d, 0x61, 0x74, 0x20, 0x33, 0x00]
}

/// Whether the first bytes read from a file (at most sixteen) are the
/// SQLite header `"SQLite format 3\0"`.
pub fn is_sqlite_header(read: &[u8]) -> (r: bool)
    ensures
        r == (read@ == sqlite_magic()),
{
    let magic: [u8; 16] = [0x53, 0x51, 0x4c, 0x69, 0x74, 0x65, 0x20, 0x66, 0x6f, 0x72, 0x6d, 0x61, 0x74, 0x20, 0x33, 0x00];
    assert(magic@ =~= sqlite_magic());
    if read.len() != 16 {
        return false;
    }
    let mut i: usize = 0;
    while i < 16
        invariant
            read@.len() == 16,
            magic@ == sqlite_magic(),
            i <= 16,
            forall|j: int| 0 <= j < i ==> read@[j] == sqlite_magic()[j],
        decreases 16 - i,
    {
        if read[i] != magic[i] {
            return false;
        }
        i = i + 1;
    }
    assert(read@ =~= sqlite_magic());
    true
}

/// Why a stored row could not be read back.
#[derive(Debug, Clone, PartialEq)]
pub enum DecodeError {
    /// A column does not hold what it should.
    Column {
        /// The column's name.
        column: String,
        /// What is wrong with it.
        reason: String,
    },
    /// A page field fails validation.
    Page(PageError),
    /// A block field fails validation.
    Block(BlockError),
    /// A database field fails validation.
    Database(DatabaseError),
    /// A property field fails validation.
    Property(PropertyError),
}

/// Whether `e` reports the column with the reason.
pub open spec fn column_error(e: DecodeError, column: Seq<char>, reason: Seq<char>) -> bool {
    e matches DecodeError::Column { column: c, reason: m } && c@ == column && m@ == reason
}

fn column(c: &str, m: &str) -> (r: DecodeError)
    ensures
        column_error(r, c@, m@),
{
    DecodeError::Column { column: String::from_str(c), reason: String::from_str(m) }
}

/// Whether a text is an ID.
pub open spec fn id_ok(s: Seq<char>) -> bool {
    uuid_parsed(s) is Some
}

/// Whether a text is a timestamp.
pub open spec fn time_ok(s: Seq<char>) -> bool {
    parsed_datetime(s) is Some
}

/// Whether the instant is what the text parses to.
pub open spec fn time_of(t: Timestamp, s: Seq<char>) -> bool {
    parsed_datetime(s) == Some((t.spec_secs(), t.spec_nanos()))
}

/// Whether an optional ID column holds an ID or nothing.
pub open spec fn opt_id_ok(s: Option<String>) -> bool {
    match s {
        Some(x) => id_ok(x@),
        None => true,
    }
}

/// Whether an optional ID is what the optional column parses to.
pub open spec fn opt_id_of(id: Option<u128>, s: Option<String>) -> bool {
    match (id, s) {
        (Some(v), Some(x)) => uuid_parsed(x@) == Some(v),
        (None, None) => true,
        _ => false,
    }
}

/// Whether a trimmed title fits between 1 and `max` characters.
pub open spec fn title_fits(s: Seq<char>, max: int) -> bool {
    0 < trim(s).len() <= max
}

fn parse_time(s: &str, c: &str, m: &str) -> (r: Result<Timestamp, DecodeError>)
    ensures
        match r {
            Ok(t) => time_of(t, s@),
            Err(e) => !time_ok(s@) && column_error(e, c@, m@),
        },
{
    match Timestamp::parse_rfc3339(s) {
        Ok(t) => Ok(t),
        Err(_) => Err(column(c, m)),
    }
}

/// The page ID of an optional column.
fn parse_opt_page_id(s: &Option<String>, c: &str, m: &str) -> (r: Result<Option<PageId>, DecodeError>)
    ensures
        match r {
            Ok(id) => opt_id_of(
                match id {
                    Some(x) => Some(x@),
                    None => None,
                },
                *s,
            ),
            Err(e) => !opt_id_ok(*s) && column_error(e, c@, m@),
        },
{
    match s {
        Some(x) => match PageId::from_str(x.as_str()) {
            Ok(id) => Ok(Some(id)),
            Err(_) => Err(column(c, m)),
        },
        None => Ok(None),
    }
}

/// The database ID of an optional column.
fn parse_opt_database_id(s: &Option<String>, c: &str, m: &str) -> (r: Result<Option<DatabaseId>, DecodeError>)
    ensures
        match r {
            Ok(id) => opt_id_of(
                match id {
                    Some(x) => Some(x@),
                    None => None,
                },
                *s,
            ),
            Err(e) => !opt_id_ok(*s) && column_error(e, c@, m@),
        },
{
    match s {
        Some(x) => match DatabaseId::from_str(x.as_str()) {
            Ok(id) => Ok(Some(id)),
            Err(_) => Err(column(c, m)),
        },
        None => Ok(None),
    }
}

/// Reads a page back from its stored columns.
///
/// # Errors
///
/// The first of: an invalid `id`, an invalid title ([`PageError`]), an
/// invalid `database_id` or `parent_id`, an invalid `created_at` or
/// `updated_at` timestamp.
pub fn decode_page_row(
    id: &str,
    title: String,
    database_id: Option<String>,
    parent_id: Option<String>,
    sort_order: i64,
    created_at: &str,
    updated_at: &str,
) -> (r: Result<Page, DecodeError>)
    ensures
        match r {
            Ok(p) => {
                &&& uuid_parsed(id@) == Some(p@.id@)
                &&& title_fits(title@, 255) && p@.title == trim(title@)
                &&& opt_id_of(
                    match p@.database_id {
                        Some(x) => Some(x@),
                        None => None,
                    },
                    database_id,
                )
                &&& opt_id_of(
                    match p@.parent_id {
                        Some(x) => Some(x@),
                        None => None,
                    },
                    parent_id,
                )
                &&& p@.sort_order == sort_order
                &&& time_of(p@.created_at, created_at@)
                &&& time_of(p@.updated_at, updated_at@)
            },
            Err(e) => if !id_ok(id@) {
                column_error(e, "id"@, "invalid page id"@)
            } else if !title_fits(title@, 255) {
                e == DecodeError::Page(
                    if trim(title@).len() == 0 {
                        PageError::TitleEmpty
                    } else {
                        PageError::TitleTooLong { len: trim(title@).len() as usize, max: 255 }
                    },
                )
            } else if !opt_id_ok(database_id) {
                column_error(e, "database_id"@, "invalid database_id"@)
            } else if !opt_id_ok(parent_id) {
                column_error(e, "parent_id"@, "invalid parent_id"@)
            } else if !time_ok(created_at@) {
                column_error(e, "created_at"@, "invalid created_at timestamp"@)
            } else {
                !time_ok(updated_at@) && column_error(e, "updated_at"@, "invalid updated_at timestamp"@)
            },
        },
{
    let page_id = match PageId::from_str(id) {
        Ok(p) => p,
        Err(_) => return Err(column("id", "invalid page id")),
    };
    let title = match PageTitle::try_from(title) {
        Ok(t) => t,
        Err(e) => return Err(DecodeError::Page(e)),
    };
    let database_id = parse_opt_database_id(&database_id, "database_id", "invalid database_id")?;
    let parent_id = parse_opt_page_id(&parent_id, "parent_id", "invalid parent_id")?;
    let created = parse_time(created_at, "created_at", "invalid created_at timestamp")?;
    let updated = parse_time(updated_at, "updated_at", "invalid updated_at timestamp")?;
    Ok(Page::from_stored(page_id, title, database_id, parent_id, sort_order, created, updated))
}

/// Reads a block back from its stored columns.
///
/// # Errors
///
/// The first of: an invalid `id` or `page_id`, content over 10,000
/// characters or a negative position ([`BlockError`]), an invalid
/// `created_at` or `updated_at` timestamp.
pub fn decode_block_row(
    id: &str,
    page_id: &str,
    block_type: String,
    content: String,
    position: i64,
    created_at: &str,
    updated_at: &str,
) -> (r: Result<Block, DecodeError>)
    ensures
        match r {
            Ok(b) => {
                &&& uuid_parsed(id@) == Some(b@.id@)
                &&& uuid_parsed(page_id@) == Some(b@.page_id@)
                &&& b@.block_type == block_type@
                &&& content@.len() <= MAX_CONTENT_LENGTH && b@.content == content@
                &&& position >= 0 && b@.position == position
                &&& time_of(b@.created_at, created_at@)
                &&& time_of(b@.updated_at, updated_at@)
            },
            Err(e) => if !id_ok(id@) {
                column_error(e, "id"@, "invalid block id"@)
            } else if !id_ok(page_id@) {
                column_error(e, "page_id"@, "invalid page id in block"@)
            } else if content@.len() > MAX_CONTENT_LENGTH {
                e == DecodeError::Block(BlockError::ContentTooLong { len: content@.len() as usize, max: MAX_CONTENT_LENGTH })
            } else if position < 0 {
                e == DecodeError::Block(BlockError::InvalidPosition { value: position })
            } else if !time_ok(created_at@) {
                column_error(e, "created_at"@, "invalid created_at timestamp"@)
            } else {
                !time_ok(updated_at@) && column_error(e, "updated_at"@, "invalid updated_at timestamp"@)
            },
        },
{
    let block_id = match BlockId::from_str(id) {
        Ok(b) => b,
        Err(_) => return Err(column("id", "invalid block id")),
    };
    let owner = match PageId::from_str(page_id) {
        Ok(p) => p,
        Err(_) => return Err(column("page_id", "invalid page id in block")),
    };
    let content = match BlockContent::try_from(content) {
        Ok(c) => c,
        Err(e) => return Err(DecodeError::Block(e)),
    };
    let position = match BlockPosition::try_from(position) {
        Ok(p) => p,
        Err(e) => return Err(DecodeError::Block(e)),
    };
    let created = parse_time(created_at, "created_at", "invalid created_at timestamp")?;
    let updated = parse_time(updated_at, "updated_at", "invalid updated_at timestamp")?;
    Ok(Block::from_stored(block_id, owner, block_type, content, position, created, updated))
}

/// Reads a database back from its stored columns.
///
/// # Errors
///
/// The first of: an invalid `id`, an invalid title ([`DatabaseError`]), an
/// invalid `created_at` or `updated_at` timestamp.
pub fn decode_database_row(id: &str, title: String, created_at: &str, updated_at: &str) -> (r: Result<Database, DecodeError>)
    ensures
        match r {
            Ok(d) => {
                &&& uuid_parsed(id@) == Some(d.spec_id()@)
                &&& title_fits(title@, 255) && d.spec_title() == trim(title@)
                &&& time_of(d.spec_created_at(), created_at@)
                &&& time_of(d.spec_updated_at(), updated_at@)
            },
            Err(e) => if !id_ok(id@) {
                column_error(e, "id"@, "invalid database id"@)
            } else if !title_fits(title@, 255) {
                e == DecodeError::Database(
                    if trim(title@).len() == 0 {
                        DatabaseError::TitleEmpty
                    } else {
                        DatabaseError::TitleTooLong { len: trim(title@).len() as usize, max: 255 }
                    },
                )
            } else if !time_ok(created_at@) {
                column_error(e, "created_at"@, "invalid created_at timestamp"@)
            } else {
                !time_ok(updated_at@) && column_error(e, "updated_at"@, "invalid updated_at timestamp"@)
            },
        },
{
    let db_id = match DatabaseId::from_str(id) {
        Ok(d) => d,
        Err(_) => return Err(column("id", "invalid database id")),
    };
    let title = match DatabaseTitle::try_from(title) {
        Ok(t) => t,
        Err(e) => return Err(DecodeError::Database(e)),
    };
    let created = parse_time(created_at, "created_at", "invalid created_at timestamp")?;
    let updated = parse_time(updated_at, "updated_at", "invalid updated_at timestamp")?;
    Ok(Database::from_stored(db_id, title, created, updated))
}

/// Reads a property back from its stored columns; `config` is the stored
/// configuration as decoded from JSON (`Err` if the JSON does not decode).
///
/// # Errors
///
/// The first of: an invalid `id` or `database_id`, an invalid name or type
/// ([`PropertyError`]), undecodable configuration JSON, an invalid
/// `created_at` or `updated_at` timestamp.
pub fn decode_property_row(
    id: &str,
    database_id: &str,
    name: String,
    property_type: &str,
    config: Result<Option<PropertyConfig>, ()>,
    position: i64,
    created_at: &str,
    updated_at: &str,
) -> (r: Result<Property, DecodeError>)
    ensures
        match r {
            Ok(p) => {
                &&& uuid_parsed(id@) == Some(p@.id@)
                &&& uuid_parsed(database_id@) == Some(p@.database_id@)
                &&& title_fits(name@, 100) && p@.name == trim(name@)
                &&& property_type_name(p@.property_type) == property_type@
                &&& config == Ok::<Option<PropertyConfig>, ()>(p@.config)
                &&& p@.position == position
                &&& time_of(p@.created_at, created_at@)
                &&& time_of(p@.updated_at, updated_at@)
            },
            Err(e) => if !id_ok(id@) {
                column_error(e, "id"@, "invalid property id"@)
            } else if !id_ok(database_id@) {
                column_error(e, "database_id"@, "invalid database id"@)
            } else if !title_fits(name@, 100) {
                e == DecodeError::Property(
                    if trim(name@).len() == 0 {
                        PropertyError::NameEmpty
                    } else {
                        PropertyError::NameTooLong { len: trim(name@).len() as usize, max: 100 }
                    },
                )
            } else if forall|t: PropertyType| property_type_name(t) != property_type@ {
                e matches DecodeError::Property(PropertyError::InvalidType { value }) && value@ == property_type@
            } else if config is Err {
                column_error(e, "config"@, "invalid property config JSON"@)
            } else if !time_ok(created_at@) {
                column_error(e, "created_at"@, "invalid created_at timestamp"@)
            } else {
                !time_ok(updated_at@) && column_error(e, "updated_at"@, "invalid updated_at timestamp"@)
            },
        },
{
    let prop_id = match PropertyId::from_str(id) {
        Ok(p) => p,
        Err(_) => return Err(column("id", "invalid property id")),
    };
    let db_id = match DatabaseId::from_str(database_id) {
        Ok(d) => d,
        Err(_) => return Err(column("database_id", "invalid database id")),
    };
    let name = match PropertyName::try_from(name) {
        Ok(n) => n,
        Err(e) => return Err(DecodeError::Property(e)),
    };
    let t = match parse_property_type(property_type) {
        Ok(t) => t,
        Err(e) => return Err(DecodeError::Property(e)),
    };
    let config = match config {
        Ok(c) => c,
        Err(()) => return Err(column("config", "invalid property config JSON")),
    };
    let created = parse_time(created_at, "created_at", "invalid created_at timestamp")?;
    let updated = parse_time(updated_at, "updated_at", "invalid updated_at timestamp")?;
    Ok(Property::from_stored(prop_id, db_id, name, t, config, position, created, updated))
}

/// Reads a property value back from its stored columns; a stored boolean
/// is an integer, true when non-zero.
///
/// # Errors
///
/// The first of: an invalid `id`, `page_id` or `property_id`, an invalid
/// `date_value`, `created_at` or `updated_at` timestamp.
pub fn decode_property_value_row(
    id: &str,
    page_id: &str,
    property_id: &str,
    text_value: Option<String>,
    number_value: Option<u64>,
    date_value: Option<String>,
    boolean_value: Option<i64>,
    created_at: &str,
    updated_at: &str,
) -> (r: Result<PropertyValue, DecodeError>)
    ensures
        match r {
            Ok(v) => {
                &&& uuid_parsed(id@) == Some(v@.id@)
                &&& uuid_parsed(page_id@) == Some(v@.page_id@)
                &&& uuid_parsed(property_id@) == Some(v@.property_id@)
                &&& v@.text_value == opt_view(text_value)
                &&& v@.number_value == number_value
                &&& match (v@.date_value, date_value) {
                    (Some(d), Some(s)) => time_of(d, s@),
                    (None, None) => true,
                    _ => false,
                }
                &&& v@.boolean_value == match boolean_value {
                    Some(b) => Some(b != 0),
                    None => None,
                }
                &&& time_of(v@.created_at, created_at@)
                &&& time_of(v@.updated_at, updated_at@)
            },
            Err(e) => if !id_ok(id@) {
                column_error(e, "id"@, "invalid property value id"@)
            } else if !id_ok(page_id@) {
                column_error(e, "page_id"@, "invalid page id"@)
            } else if !id_ok(property_id@) {
                column_error(e, "property_id"@, "invalid property id"@)
            } else if date_value matches Some(s) && !time_ok(s@) {
                column_error(e, "date_value"@, "invalid date_value timestamp"@)
            } else if !time_ok(created_at@) {
                column_error(e, "created_at"@, "invalid created_at timestamp"@)
            } else {
                !time_ok(updated_at@) && column_error(e, "updated_at"@, "invalid updated_at timestamp"@)
            },
        },
{
    let pv_id = match PropertyValueId::from_str(id) {
        Ok(v) => v,
        Err(_) => return Err(column("id", "invalid property value id")),
    };
    let pg_id = match PageId::from_str(page_id) {
        Ok(p) => p,
        Err(_) => return Err(column("page_id", "invalid page id")),
    };
    let prop_id = match PropertyId::from_str(property_id) {
        Ok(p) => p,
        Err(_) => return Err(column("property_id", "invalid property id")),
    };
    let date = match &date_value {
        Some(s) => Some(parse_time(s.as_str(), "date_value", "invalid date_value timestamp")?),
        None => None,
    };
    let boolean = match boolean_value {
        Some(b) => Some(b != 0),
        None => None,
    };
    let created = parse_time(created_at, "created_at", "invalid created_at timestamp")?;
    let updated = parse_time(updated_at, "updated_at", "invalid updated_at timestamp")?;
    Ok(PropertyValue::from_stored(pv_id, pg_id, prop_id, text_value, number_value, date, boolean, created, updated))
}

/// Reads a view back from its stored columns. The conditions and collapsed
/// groups come decoded from their JSON columns (empty when the JSON does not
/// decode); a stored name that is not a valid view name reads as "Table",
/// and every stored layout reads as a table.
///
/// # Errors
///
/// The first of: an invalid `id` or `database_id`, an invalid `created_at`
/// or `updated_at` timestamp.
pub fn decode_view_row(
    id: &str,
    database_id: &str,
    name: String,
    view_type: &str,
    sort_conditions: Vec<SortCondition>,
    filter_conditions: Vec<FilterCondition>,
    group_condition: Option<GroupCondition>,
    collapsed_groups: Vec<String>,
    created_at: &str,
    updated_at: &str,
) -> (r: Result<View, DecodeError>)
    ensures
        match r {
            Ok(v) => {
                &&& uuid_parsed(id@) == Some(v.spec_id()@)
                &&& uuid_parsed(database_id@) == Some(v.spec_database_id()@)
                &&& v.spec_name() == if title_fits(name@, 100) {
                    trim(name@)
                } else {
                    "Table"@
                }
                &&& v.spec_view_type() == ViewType::Table
                &&& v.spec_sorts() == sort_conditions@
                &&& v.spec_filters() == filter_conditions@
                &&& v.spec_group() == group_condition
                &&& v.spec_collapsed() == text_set(collapsed_groups@)
                &&& time_of(v.spec_created_at(), created_at@)
                &&& time_of(v.spec_updated_at(), updated_at@)
            },
            Err(e) => if !id_ok(id@) {
                column_error(e, "id"@, "invalid view id"@)
            } else if !id_ok(database_id@) {
                column_error(e, "database_id"@, "invalid database id"@)
            } else if !time_ok(created_at@) {
                column_error(e, "created_at"@, "invalid created_at timestamp"@)
            } else {
                !time_ok(updated_at@) && column_error(e, "updated_at"@, "invalid updated_at timestamp"@)
            },
        },
{
    let view_id = match ViewId::from_str(id) {
        Ok(v) => v,
        Err(_) => return Err(column("id", "invalid view id")),
    };
    let db_id = match DatabaseId::from_str(database_id) {
        Ok(d) => d,
        Err(_) => return Err(column("database_id", "invalid database id")),
    };
    let view_name = match ViewName::try_from(name) {
        Ok(n) => n,
        Err(_) => {
            let fallback = String::from_str("Table");
            proof {
                reveal_strlit("Table");
                assert(trims_to_itself("Table"@));
            }
            match ViewName::try_from(fallback) {
                Ok(n) => n,
                Err(_) => return Err(column("name", "invalid view name")),
            }
        },
    };
    let _ = view_type;
    let created = parse_time(created_at, "created_at", "invalid created_at timestamp")?;
    let updated = parse_time(updated_at, "updated_at", "invalid updated_at timestamp")?;
    Ok(View::from_stored(
        view_id,
        db_id,
        view_name,
        ViewType::Table,
        sort_conditions,
        filter_conditions,
        group_condition,
        collapsed_groups,
        created,
        updated,
    ))
}

/// Whether trimming leaves the text unchanged.
pub open spec fn trims_to_itself(s: Seq<char>) -> bool {
    trim(s) == s
}

} // verus!
