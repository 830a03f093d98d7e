//! Blocks: the units of content of a page, with their validated content and
//! position.

use vstd::prelude::*;
use crate::ids::{BlockId, PageId, uuid_version};
use crate::text::{concat3, concat5, decimal, i64_text, usize_text};
use crate::time::Timestamp;

verus! {

/// Maximum number of Unicode characters allowed in a block's content.
pub const MAX_CONTENT_LENGTH: usize = 10_000;

/// Errors originating from the Block domain model.
#[derive(Debug, Clone, PartialEq)]
pub enum BlockError {
    /// The block content exceeded the maximum allowed character count.
    ContentTooLong {
        /// Actual character count.
        len: usize,
        /// Maximum allowed character count.
        max: usize,
    },
    /// An invalid (negative) block position was provided.
    InvalidPosition {
        /// The invalid position value.
        value: i64,
    },
    /// No block was found with the given ID.
    NotFound {
        /// The ID that was looked up.
        id: String,
    },
    /// The block is already at the top and cannot move up.
    CannotMoveUp {
        /// The ID of the block.
        id: String,
    },
    /// The block is already at the bottom and cannot move down.
    CannotMoveDown {
        /// The ID of the block.
        id: String,
    },
}

/// The message describing a block error.
pub open spec fn block_error_message(e: BlockError) -> Seq<char> {
    match e {
        BlockError::ContentTooLong { len: n, max: m } => "block content too long: "@ + decimal(n as int)
            + " characters (max: "@ + decimal(m as int) + ")"@,
        BlockError::InvalidPosition { value } => "invalid block position: "@ + decimal(value as int),
        BlockError::NotFound { id } => "block not found: "@ + id@,
        BlockError::CannotMoveUp { id } => "cannot move block up: "@ + id@ + " is at the top"@,
        BlockError::CannotMoveDown { id } => "cannot move block down: "@ + id@ + " is at the bottom"@,
    }
}

impl BlockError {
    /// The message describing the error.
    pub fn to_string(&self) -> (r: String)
        ensures
            r@ == block_error_message(*self),
    {
        match self {
            BlockError::ContentTooLong { len, max } => {
                let a = usize_text(*len);
                let b = usize_text(*max);
                concat5("block content too long: ", a.as_str(), " characters (max: ", b.as_str(), ")")
            },
            BlockError::InvalidPosition { value } => {
                let a = i64_text(*value);
                let mut m = String::from_str("invalid block position: ");
                m.append(a.as_str());
                m
            },
            BlockError::NotFound { id } => {
                let mut m = String::from_str("block not found: ");
                m.append(id.as_str());
                m
            },
            BlockError::CannotMoveUp { id } => concat3("cannot move block up: ", id.as_str(), " is at the top"),
            BlockError::CannotMoveDown { id } => concat3("cannot move block down: ", id.as_str(), " is at the bottom"),
        }
    }
}

/// Validated block content (0–10,000 Unicode characters).
#[derive(Debug, Clone, PartialEq, Eq)]
pub struct BlockContent(String);

impl View for BlockContent {
    type V = Seq<char>;

    closed spec fn view(&self) -> Seq<char> {
        self.0@
    }
}

impl BlockContent {
    /// Whether `s` is acceptable block content.
    pub open spec fn valid(s: Seq<char>) -> bool {
        s.len() <= MAX_CONTENT_LENGTH
    }

    /// The empty content.
    pub fn empty() -> (r: Self)
        ensures
            r@ == Seq::<char>::empty(),
    {
        BlockContent(String::new())
    }

    /// Returns the inner string slice.
    pub fn as_str(&self) -> (r: &str)
        ensures
            r@ == self@,
    {
        self.0.as_str()
    }

    /// A copy of the content.
    pub fn duplicate(&self) -> (r: Self)
        ensures
            r@ == self@,
    {
        BlockContent(self.0.clone())
    }

    /// Creates a [`BlockContent`] after validating the character count.
    ///
    /// # Errors
    ///
    /// [`BlockError::ContentTooLong`] if the string exceeds 10,000 characters.
    pub fn try_from(value: String) -> (r: Result<Self, BlockError>)
        ensures
            match r {
                Ok(c) => value@.len() <= MAX_CONTENT_LENGTH && c@ == value@,
                Err(e) => value@.len() > MAX_CONTENT_LENGTH && e == (BlockError::ContentTooLong {
                    len: value@.len() as usize,
                    max: MAX_CONTENT_LENGTH,
                }),
            },
    {
        let len = value.as_str().unicode_len();
        if len > MAX_CONTENT_LENGTH {
            return Err(BlockError::ContentTooLong { len, max: MAX_CONTENT_LENGTH });
        }
        Ok(BlockContent(value))
    }
}

/// A validated non-negative block position (0-based display order).
#[derive(Debug, Clone, Copy, PartialEq, Eq, PartialOrd, Ord)]
pub struct BlockPosition(i64);

impl BlockPosition {
    /// The position as an integer.
    pub closed spec fn spec_value(&self) -> i64 {
        self.0
    }

    /// Returns the inner `i64` value.
    pub fn value(&self) -> (r: i64)
        ensures
            r == self.spec_value(),
    {
        self.0
    }

    /// Creates a [`BlockPosition`] after validating non-negativity.
    ///
    /// # Errors
    ///
    /// [`BlockError::InvalidPosition`] if the value is negative.
    pub fn try_from(value: i64) -> (r: Result<Self, BlockError>)
        ensures
            match r {
                Ok(p) => value >= 0 && p.spec_value() == value,
                Err(e) => value < 0 && e == (BlockError::InvalidPosition { value }),
            },
    {
        if value < 0 {
            return Err(BlockError::InvalidPosition { value });
        }
        Ok(BlockPosition(value))
    }
}

/// What a [`Block`] holds, as plain values.
pub struct BlockView {
    /// The block's identifier.
    pub id: BlockId,
    /// The page the block belongs to.
    pub page_id: PageId,
    /// The block type (e.g. `"text"`).
    pub block_type: Seq<char>,
    /// The content.
    pub content: Seq<char>,
    /// The position within the page.
    pub position: i64,
    /// The creation time.
    pub created_at: Timestamp,
    /// The last update time.
    pub updated_at: Timestamp,
}

impl BlockView {
    /// The same block at another position.
    pub open spec fn at_position(self, position: i64) -> BlockView {
        BlockView { position, ..self }
    }

    /// The same block with other content.
    pub open spec fn with_content(self, content: Seq<char>) -> BlockView {
        BlockView { content, ..self }
    }
}

/// A block entity — a unit of content within a page, ordered by its
/// position and managed by an editor session.
#[derive(Debug, Clone)]
pub struct Block {
    id: BlockId,
    page_id: PageId,
    block_type: String,
    content: BlockContent,
    position: BlockPosition,
    created_at: Timestamp,
    updated_at: Timestamp,
}

impl View for Block {
    type V = BlockView;

    closed spec fn view(&self) -> BlockView {
        BlockView {
            id: self.id,
            page_id: self.page_id,
            block_type: self.block_type@,
            content: self.content@,
            position: self.position.spec_value(),
            created_at: self.created_at,
            updated_at: self.updated_at,
        }
    }
}

impl Block {
    /// Creates a new empty text block for the given page at the given
    /// position, with a generated UUIDv7 ID and both timestamps set to the
    /// current time.
    pub fn new(page_id: PageId, position: BlockPosition) -> (r: Self)
        ensures
            r@.page_id == page_id,
            r@.block_type == "text"@,
            r@.content == Seq::<char>::empty(),
            r@.position == position.spec_value(),
            r@.created_at == r@.updated_at,
            uuid_version(r@.id@) == 7,
    {
        let now = Timestamp::now();
        Block {
            id: BlockId::new(),
            page_id,
            block_type: String::from_str("text"),
            content: BlockContent::empty(),
            position,
            created_at: now,
            updated_at: now,
        }
    }

    /// Reconstructs a block from stored fields.
    pub fn from_stored(
        id: BlockId,
        page_id: PageId,
        block_type: String,
        content: BlockContent,
        position: BlockPosition,
        created_at: Timestamp,
        updated_at: Timestamp,
    ) -> (r: Self)
        ensures
            r@ == (BlockView {
                id,
                page_id,
                block_type: block_type@,
                content: content@,
                position: position.spec_value(),
                created_at,
                updated_at,
            }),
    {
        Block { id, page_id, block_type, content, position, created_at, updated_at }
    }

    /// Returns a reference to the block's ID.
    pub fn id(&self) -> (r: &BlockId)
        ensures
            *r == self@.id,
    {
        &self.id
    }

    /// Returns a reference to the parent page's ID.
    pub fn page_id(&self) -> (r: &PageId)
        ensures
            *r == self@.page_id,
    {
        &self.page_id
    }

    /// Returns the block type (e.g. `"text"`).
    pub fn block_type(&self) -> (r: &str)
        ensures
            r@ == self@.block_type,
    {
        self.block_type.as_str()
    }

    /// Returns a reference to the block's content.
    pub fn content(&self) -> (r: &BlockContent)
        ensures
            r@ == self@.content,
    {
        &self.content
    }

    /// Returns the block's position.
    pub fn position(&self) -> (r: BlockPosition)
        ensures
            r.spec_value() == self@.position,
    {
        self.position
    }

    /// Returns the creation timestamp.
    pub fn created_at(&self) -> (r: Timestamp)
        ensures
            r == self@.created_at,
    {
        self.created_at
    }

    /// Returns the last-updated timestamp.
    pub fn updated_at(&self) -> (r: Timestamp)
        ensures
            r == self@.updated_at,
    {
        self.updated_at
    }

    /// Replaces the block's content.
    pub(crate) fn set_content(&mut self, content: BlockContent)
        ensures
            final(self)@ == old(self)@.with_content(content@),
    {
        self.content = content;
    }

    /// Moves the block to another position.
    pub(crate) fn set_position(&mut self, position: BlockPosition)
        ensures
            final(self)@ == old(self)@.at_position(position.spec_value()),
    {
        self.position = position;
    }
}

} // verus!
