//! Pages: the aggregate root of user-created content.

use vstd::prelude::*;
use crate::ids::{DatabaseId, PageId, uuid_text, uuid_version};
use crate::text::{concat2, concat3, concat4, concat5, decimal, trim, trim_and_count, usize_text};
use crate::time::Timestamp;

verus! {

/// Maximum number of characters allowed in a page title.
pub const MAX_TITLE_LENGTH: usize = 255;

/// Errors originating from the Page domain model.
#[derive(Debug, Clone, PartialEq)]
pub enum PageError {
    /// The page title was empty after trimming whitespace.
    TitleEmpty,
    /// The page title exceeded the maximum allowed length.
    TitleTooLong {
        /// Actual character count.
        len: usize,
        /// Maximum allowed character count.
        max: usize,
    },
    /// No page was found with the given ID.
    NotFound {
        /// The ID that was looked up.
        id: PageId,
    },
    /// The page is already in a database.
    AlreadyInDatabase {
        /// The page ID.
        page_id: PageId,
        /// The database ID.
        database_id: DatabaseId,
    },
    /// Moving a page would create a circular reference in the hierarchy.
    CircularReference {
        /// The page being moved.
        page_id: String,
        /// The target parent that would cause a cycle.
        target_parent_id: String,
    },
    /// The resulting nesting depth would exceed the maximum allowed.
    MaxDepthExceeded {
        /// The page being moved or created.
        page_id: String,
        /// The depth that would result from the operation.
        current_depth: usize,
        /// The maximum allowed depth.
        max_depth: usize,
    },
    /// A database-owned page cannot participate in the page hierarchy.
    DatabasePageCannotNest {
        /// The database-owned page ID.
        page_id: String,
    },
}

/// The message describing a page error.
pub open spec fn page_error_message(e: PageError) -> Seq<char> {
    match e {
        PageError::TitleEmpty => "page title must not be empty"@,
        PageError::TitleTooLong { len, max } => "page title too long: "@ + decimal(len as int)
            + " characters (max "@ + decimal(max as int) + ")"@,
        PageError::NotFound { id } => "page not found: "@ + uuid_text(id@),
        PageError::AlreadyInDatabase { page_id, database_id } => "page "@ + uuid_text(page_id@)
            + " already in database "@ + uuid_text(database_id@),
        PageError::CircularReference { page_id, target_parent_id } =>
            "circular reference detected: page "@ + page_id@ + " cannot be moved under "@
            + target_parent_id@,
        PageError::MaxDepthExceeded { page_id, current_depth, max_depth } =>
            "maximum nesting depth ("@ + decimal(max_depth as int) + ") exceeded for page "@
            + page_id@,
        PageError::DatabasePageCannotNest { page_id } => "database page "@ + page_id@
            + " cannot participate in page hierarchy"@,
    }
}

impl PageError {
    /// The message describing the error.
    pub fn to_string(&self) -> (r: String)
        ensures
            r@ == page_error_message(*self),
    {
        match self {
            PageError::TitleEmpty => String::from_str("page title must not be empty"),
            PageError::TitleTooLong { len, max } => {
                let a = usize_text(*len);
                let b = usize_text(*max);
                concat5("page title too long: ", a.as_str(), " characters (max ", b.as_str(), ")")
            },
            PageError::NotFound { id } => {
                let a = id.to_string();
                concat2("page not found: ", a.as_str())
            },
            PageError::AlreadyInDatabase { page_id, database_id } => {
                let a = page_id.to_string();
                let b = database_id.to_string();
                concat4("page ", a.as_str(), " already in database ", b.as_str())
            },
            PageError::CircularReference { page_id, target_parent_id } => concat4(
                "circular reference detected: page ",
                page_id.as_str(),
                " cannot be moved under ",
                target_parent_id.as_str(),
            ),
            PageError::MaxDepthExceeded { page_id, max_depth, .. } => {
                let a = usize_text(*max_depth);
                concat4("maximum nesting depth (", a.as_str(), ") exceeded for page ", page_id.as_str())
            },
            PageError::DatabasePageCannotNest { page_id } => concat3(
                "database page ",
                page_id.as_str(),
                " cannot participate in page hierarchy",
            ),
        }
    }
}

/// A validated page title (1–255 Unicode characters after trimming).
#[derive(Debug, Clone, PartialEq, Eq)]
pub struct PageTitle(String);

impl View for PageTitle {
    type V = Seq<char>;

    closed spec fn view(&self) -> Seq<char> {
        self.0@
    }
}

impl PageTitle {
    /// Returns the inner string slice.
    pub fn as_str(&self) -> (r: &str)
        ensures
            r@ == self@,
    {
        self.0.as_str()
    }

    /// A copy of the title.
    pub fn duplicate(&self) -> (r: Self)
        ensures
            r@ == self@,
    {
        PageTitle(self.0.clone())
    }

    /// Creates a [`PageTitle`] after trimming and validating the input.
    ///
    /// # Errors
    ///
    /// - [`PageError::TitleEmpty`] if the trimmed string is empty.
    /// - [`PageError::TitleTooLong`] if the trimmed string exceeds 255 characters.
    pub fn try_from(value: String) -> (r: Result<Self, PageError>)
        ensures
            match r {
                Ok(t) => 0 < trim(value@).len() <= MAX_TITLE_LENGTH && t@ == trim(value@),
                Err(e) => if trim(value@).len() == 0 {
                    e == PageError::TitleEmpty
                } else {
                    trim(value@).len() > MAX_TITLE_LENGTH && e == (PageError::TitleTooLong {
                        len: trim(value@).len() as usize,
                        max: MAX_TITLE_LENGTH,
                    })
                },
            },
    {
        let (trimmed, len) = trim_and_count(value.as_str());
        if len == 0 {
            return Err(PageError::TitleEmpty);
        }
        if len > MAX_TITLE_LENGTH {
            return Err(PageError::TitleTooLong { len, max: MAX_TITLE_LENGTH });
        }
        Ok(PageTitle(trimmed))
    }
}

/// What a [`Page`] holds, as plain values.
pub struct PageView {
    /// The page's identifier.
    pub id: PageId,
    /// The title.
    pub title: Seq<char>,
    /// The database that owns the page, if any.
    pub database_id: Option<DatabaseId>,
    /// The parent page, if any.
    pub parent_id: Option<PageId>,
    /// The order within the same parent.
    pub sort_order: i64,
    /// The creation time.
    pub created_at: Timestamp,
    /// The last update time.
    pub updated_at: Timestamp,
}

/// A page entity — the aggregate root for user-created pages.
///
/// A page is either standalone (`database_id` is `None`) or owned by a
/// database. Only standalone pages take part in the page hierarchy.
#[derive(Debug, Clone)]
pub struct Page {
    id: PageId,
    title: PageTitle,
    database_id: Option<DatabaseId>,
    parent_id: Option<PageId>,
    sort_order: i64,
    created_at: Timestamp,
    updated_at: Timestamp,
}

impl View for Page {
    type V = PageView;

    closed spec fn view(&self) -> PageView {
        PageView {
            id: self.id,
            title: self.title@,
            database_id: self.database_id,
            parent_id: self.parent_id,
            sort_order: self.sort_order,
            created_at: self.created_at,
            updated_at: self.updated_at,
        }
    }
}

impl Page {
    /// Creates a new standalone root-level page with a generated UUIDv7 ID,
    /// both timestamps set to the current time.
    pub fn new(title: PageTitle) -> (r: Self)
        ensures
            r@.title == title@,
            r@.database_id is None,
            r@.parent_id is None,
            r@.sort_order == 0,
            r@.created_at == r@.updated_at,
            uuid_version(r@.id@) == 7,
    {
        let now = Timestamp::now();
        Page {
            id: PageId::new(),
            title,
            database_id: None,
            parent_id: None,
            sort_order: 0,
            created_at: now,
            updated_at: now,
        }
    }

    /// Creates a new standalone page as a child of the given parent.
    pub fn new_child(title: PageTitle, parent_id: PageId) -> (r: Self)
        ensures
            r@.title == title@,
            r@.database_id is None,
            r@.parent_id == Some(parent_id),
            r@.sort_order == 0,
            r@.created_at == r@.updated_at,
            uuid_version(r@.id@) == 7,
    {
        let now = Timestamp::now();
        Page {
            id: PageId::new(),
            title,
            database_id: None,
            parent_id: Some(parent_id),
            sort_order: 0,
            created_at: now,
            updated_at: now,
        }
    }

    /// Reconstructs a page from stored fields.
    pub fn from_stored(
        id: PageId,
        title: PageTitle,
        database_id: Option<DatabaseId>,
        parent_id: Option<PageId>,
        sort_order: i64,
        created_at: Timestamp,
        updated_at: Timestamp,
    ) -> (r: Self)
        ensures
            r@ == (PageView {
                id,
                title: title@,
                database_id,
                parent_id,
                sort_order,
                created_at,
                updated_at,
            }),
    {
        Page { id, title, database_id, parent_id, sort_order, created_at, updated_at }
    }

    /// Returns a reference to the page's ID.
    pub fn id(&self) -> (r: &PageId)
        ensures
            *r == self@.id,
    {
        &self.id
    }

    /// Returns a reference to the page's title.
    pub fn title(&self) -> (r: &PageTitle)
        ensures
            r@ == self@.title,
    {
        &self.title
    }

    /// Returns the database this page belongs to, if any.
    pub fn database_id(&self) -> (r: Option<&DatabaseId>)
        ensures
            match r {
                Some(d) => self@.database_id == Some(*d),
                None => self@.database_id is None,
            },
    {
        match &self.database_id {
            Some(d) => Some(d),
            None => None,
        }
    }

    /// Returns the parent page ID, if any.
    pub fn parent_id(&self) -> (r: Option<&PageId>)
        ensures
            match r {
                Some(p) => self@.parent_id == Some(*p),
                None => self@.parent_id is None,
            },
    {
        match &self.parent_id {
            Some(p) => Some(p),
            None => None,
        }
    }

    /// Returns the sort order within the same parent.
    pub fn sort_order(&self) -> (r: i64)
        ensures
            r == self@.sort_order,
    {
        self.sort_order
    }

    /// Returns `true` if this page is standalone (not owned by a database).
    pub fn is_standalone(&self) -> (r: bool)
        ensures
            r == self@.database_id is None,
    {
        self.database_id.is_none()
    }

    /// Returns `true` if this page is owned by a database.
    pub fn is_database_page(&self) -> (r: bool)
        ensures
            r == self@.database_id is Some,
    {
        self.database_id.is_some()
    }

    /// Returns the creation timestamp.
    pub fn created_at(&self) -> (r: Timestamp)
        ensures
            r == self@.created_at,
    {
        self.created_at
    }

    /// Returns the last-updated timestamp.
    pub fn updated_at(&self) -> (r: Timestamp)
        ensures
            r == self@.updated_at,
    {
        self.updated_at
    }
}

} // verus!
