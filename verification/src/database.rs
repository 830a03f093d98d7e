//! Databases: collections of pages with typed properties.

use vstd::prelude::*;
use crate::ids::{DatabaseId, uuid_text, uuid_version};
use crate::text::{concat2, concat5, decimal, trim, trim_and_count, usize_text};
use crate::time::Timestamp;

verus! {

/// Maximum number of characters allowed in a database title.
pub const MAX_TITLE_LENGTH: usize = 255;

/// Errors originating from the Database domain model.
#[derive(Debug, Clone, PartialEq)]
pub enum DatabaseError {
    /// The database title was empty after trimming whitespace.
    TitleEmpty,
    /// The database title exceeded the maximum allowed length.
    TitleTooLong {
        /// Actual character count.
        len: usize,
        /// Maximum allowed character count.
        max: usize,
    },
    /// No database was found with the given ID.
    NotFound {
        /// The ID that was looked up.
        id: DatabaseId,
    },
}

/// The message describing a database error.
pub open spec fn database_error_message(e: DatabaseError) -> Seq<char> {
    match e {
        DatabaseError::TitleEmpty => "database title must not be empty"@,
        DatabaseError::TitleTooLong { len, max } => "database title too long: "@ + decimal(
            len as int,
        ) + " characters (max "@ + decimal(max as int) + ")"@,
        DatabaseError::NotFound { id } => "database not found: "@ + uuid_text(id@),
    }
}

impl DatabaseError {
    /// The message describing the error.
    pub fn to_string(&self) -> (r: String)
        ensures
            r@ == database_error_message(*self),
    {
        match self {
            DatabaseError::TitleEmpty => String::from_str("database title must not be empty"),
            DatabaseError::TitleTooLong { len, max } => {
                let a = usize_text(*len);
                let b = usize_text(*max);
                concat5("database title too long: ", a.as_str(), " characters (max ", b.as_str(), ")")
            },
            DatabaseError::NotFound { id } => {
                let a = id.to_string();
                concat2("database not found: ", a.as_str())
            },
        }
    }
}

/// A validated database title (1–255 Unicode characters after trimming).
#[derive(Debug, Clone, PartialEq, Eq)]
pub struct DatabaseTitle(String);

impl View for DatabaseTitle {
    type V = Seq<char>;

    closed spec fn view(&self) -> Seq<char> {
        self.0@
    }
}

impl DatabaseTitle {
    /// Returns the inner string slice.
    pub fn as_str(&self) -> (r: &str)
        ensures
            r@ == self@,
    {
        self.0.as_str()
    }

    /// Creates a [`DatabaseTitle`] after trimming and validating the input.
    ///
    /// # Errors
    ///
    /// - [`DatabaseError::TitleEmpty`] if the trimmed string is empty.
    /// - [`DatabaseError::TitleTooLong`] if the trimmed string exceeds 255 characters.
    pub fn try_from(value: String) -> (r: Result<Self, DatabaseError>)
        ensures
            match r {
                Ok(t) => 0 < trim(value@).len() <= MAX_TITLE_LENGTH && t@ == trim(value@),
                Err(e) => if trim(value@).len() == 0 {
                    e == DatabaseError::TitleEmpty
                } else {
                    trim(value@).len() > MAX_TITLE_LENGTH && e == (DatabaseError::TitleTooLong {
                        len: trim(value@).len() as usize,
                        max: MAX_TITLE_LENGTH,
                    })
                },
            },
    {
        let (trimmed, len) = trim_and_count(value.as_str());
        if len == 0 {
            return Err(DatabaseError::TitleEmpty);
        }
        if len > MAX_TITLE_LENGTH {
            return Err(DatabaseError::TitleTooLong { len, max: MAX_TITLE_LENGTH });
        }
        Ok(DatabaseTitle(trimmed))
    }
}

/// A database entity — the aggregate root for user-created databases.
#[derive(Debug, Clone)]
pub struct Database {
    id: DatabaseId,
    title: DatabaseTitle,
    created_at: Timestamp,
    updated_at: Timestamp,
}

impl Database {
    /// The database's identifier.
    pub closed spec fn spec_id(&self) -> DatabaseId {
        self.id
    }

    /// The database's title.
    pub closed spec fn spec_title(&self) -> Seq<char> {
        self.title@
    }

    /// The creation time.
    pub closed spec fn spec_created_at(&self) -> Timestamp {
        self.created_at
    }

    /// The last update time.
    pub closed spec fn spec_updated_at(&self) -> Timestamp {
        self.updated_at
    }

    /// Creates a new database with a generated UUIDv7 ID, both timestamps set
    /// to the current time.
    pub fn new(title: DatabaseTitle) -> (r: Self)
        ensures
            r.spec_title() == title@,
            r.spec_created_at() == r.spec_updated_at(),
            uuid_version(r.spec_id()@) == 7,
    {
        let now = Timestamp::now();
        Database { id: DatabaseId::new(), title, created_at: now, updated_at: now }
    }

    /// Reconstructs a database from stored fields.
    pub fn from_stored(
        id: DatabaseId,
        title: DatabaseTitle,
        created_at: Timestamp,
        updated_at: Timestamp,
    ) -> (r: Self)
        ensures
            r.spec_id() == id,
            r.spec_title() == title@,
            r.spec_created_at() == created_at,
            r.spec_updated_at() == updated_at,
    {
        Database { id, title, created_at, updated_at }
    }

    /// Returns a reference to the database's ID.
    pub fn id(&self) -> (r: &DatabaseId)
        ensures
            *r == self.spec_id(),
    {
        &self.id
    }

    /// Returns a reference to the database's title.
    pub fn title(&self) -> (r: &DatabaseTitle)
        ensures
            r@ == self.spec_title(),
    {
        &self.title
    }

    /// Returns the creation timestamp.
    pub fn created_at(&self) -> (r: Timestamp)
        ensures
            r == self.spec_created_at(),
    {
        self.created_at
    }

    /// Returns the last-updated timestamp.
    pub fn updated_at(&self) -> (r: Timestamp)
        ensures
            r == self.spec_updated_at(),
    {
        self.updated_at
    }
}

} // verus!
