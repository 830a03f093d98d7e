//! Identifiers. Every entity is identified by a UUIDv7, held here as its
//! 128-bit value; the `uuid` crate generates, formats and parses them.

use vstd::prelude::*;
use vstd::arithmetic::power2::pow2;
use uuid::Uuid;

verus! {

/// The error type of the `uuid` crate's parser.
#[verifier::external_type_specification]
#[verifier::external_body]
pub struct ExUuidError(uuid::Error);

/// A lowercase hexadecimal digit for `n` in `0..16`.
pub open spec fn hex_digit(n: int) -> char {
    if n < 10 {
        (48 + n) as char
    } else {
        (87 + n) as char
    }
}

/// The `k`-th hexadecimal digit of `v`, counted from the most significant one.
pub open spec fn nibble(v: u128, k: int) -> int {
    ((v as int) / (pow2((4 * (31 - k)) as nat) as int)) % 16
}

/// Number of hyphens in the hyphenated form before position `p`.
pub open spec fn hyphens_before(p: int) -> int {
    (if p > 8 { 1int } else { 0int }) + (if p > 13 { 1int } else { 0int }) + (if p > 18 {
        1int
    } else {
        0int
    }) + (if p > 23 { 1int } else { 0int })
}

/// The hyphenated lowercase text of a UUID, `xxxxxxxx-xxxx-xxxx-xxxx-xxxxxxxxxxxx`.
pub open spec fn uuid_text(v: u128) -> Seq<char> {
    Seq::new(
        36,
        |p: int|
            if p == 8 || p == 13 || p == 18 || p == 23 {
                '-'
            } else {
                hex_digit(nibble(v, p - hyphens_before(p)))
            },
    )
}

/// The version number of a UUID (the thirteenth hexadecimal digit).
pub open spec fn uuid_version(v: u128) -> int {
    nibble(v, 12)
}

/// What `Uuid::parse_str` returns for `s`, as the 128-bit value.
pub uninterp spec fn uuid_parsed(s: Seq<char>) -> Option<u128>;

/// Calls `Uuid::now_v7()` and returns its 128-bit value. The value depends on
/// the clock and on random bits; the contract claims only that it is a
/// version-7 UUID, as the `uuid` documentation promises.
#[verifier::external_body]
fn fresh_v7() -> (r: u128)
    ensures
        uuid_version(r) == 7,
{
    Uuid::now_v7().as_u128()
}

/// Calls `Uuid::to_string` (the `Display` impl, which writes the hyphenated
/// lowercase form) on the UUID with value `v`.
#[verifier::external_body]
fn uuid_to_text(v: u128) -> (r: String)
    ensures
        r@ == uuid_text(v),
{
    Uuid::from_u128(v).to_string()
}

/// Calls `Uuid::parse_str`. The contract names its result and claims that the
/// hyphenated lowercase text of any value parses back to that value; which
/// other spellings it accepts is left unsaid.
#[verifier::external_body]
fn uuid_from_text(s: &str) -> (r: Result<u128, uuid::Error>)
    ensures
        r is Ok <==> uuid_parsed(s@) is Some,
        r matches Ok(v) ==> uuid_parsed(s@) == Some(v),
        r is Ok ==> forall|v: u128| #[trigger] uuid_text(v) == s@ ==> r->Ok_0 == v,
        r is Err ==> forall|v: u128| #[trigger] uuid_text(v) != s@,
{
    Uuid::parse_str(s).map(|u| u.as_u128())
}

/// The error of parsing an identifier from text that is not a UUID.
#[derive(Debug, Clone, Copy, PartialEq, Eq)]
pub struct IdParseError;

/// A UUIDv7-based identifier for a block.
#[derive(Debug, Clone, Copy, PartialEq, Eq, Hash, Structural)]
pub struct BlockId(u128);

impl View for BlockId {
    type V = u128;

    closed spec fn view(&self) -> u128 {
        self.0
    }
}

impl BlockId {
    /// Generates a new time-ordered UUIDv7 identifier.
    pub fn new() -> (r: Self)
        ensures
            uuid_version(r@) == 7,
    {
        BlockId(fresh_v7())
    }

    /// Returns the 128-bit value of the UUID.
    pub fn as_uuid(&self) -> (r: u128)
        ensures
            r == self@,
    {
        self.0
    }

    /// The identifier with the given 128-bit UUID value.
    pub fn from_uuid(v: u128) -> (r: Self)
        ensures
            r@ == v,
    {
        BlockId(v)
    }

    /// The hyphenated lowercase text of the identifier.
    pub fn to_string(&self) -> (r: String)
        ensures
            r@ == uuid_text(self@),
    {
        uuid_to_text(self.0)
    }

    /// Parses an identifier from its text; the text of an identifier parses
    /// back to that identifier.
    pub fn from_str(s: &str) -> (r: Result<Self, IdParseError>)
        ensures
            match r {
                Ok(id) => uuid_parsed(s@) == Some(id@),
                Err(_) => uuid_parsed(s@) is None,
            },
            forall|v: u128| #[trigger] uuid_text(v) == s@ ==> (r matches Ok(id) && id@ == v),
    {
        match uuid_from_text(s) {
            Ok(v) => Ok(BlockId(v)),
            Err(_) => Err(IdParseError),
        }
    }
}

impl Default for BlockId {
    fn default() -> (r: Self)
        ensures
            uuid_version(r@) == 7,
    {
        Self::new()
    }
}

/// A UUIDv7-based identifier for a page.
#[derive(Debug, Clone, Copy, PartialEq, Eq, Hash, Structural)]
pub struct PageId(u128);

impl View for PageId {
    type V = u128;

    closed spec fn view(&self) -> u128 {
        self.0
    }
}

impl PageId {
    /// Generates a new time-ordered UUIDv7 identifier.
    pub fn new() -> (r: Self)
        ensures
            uuid_version(r@) == 7,
    {
        PageId(fresh_v7())
    }

    /// Returns the 128-bit value of the UUID.
    pub fn as_uuid(&self) -> (r: u128)
        ensures
            r == self@,
    {
        self.0
    }

    /// The identifier with the given 128-bit UUID value.
    pub fn from_uuid(v: u128) -> (r: Self)
        ensures
            r@ == v,
    {
        PageId(v)
    }

    /// The hyphenated lowercase text of the identifier.
    pub fn to_string(&self) -> (r: String)
        ensures
            r@ == uuid_text(self@),
    {
        uuid_to_text(self.0)
    }

    /// Parses an identifier from its text; the text of an identifier parses
    /// back to that identifier.
    pub fn from_str(s: &str) -> (r: Result<Self, IdParseError>)
        ensures
            match r {
                Ok(id) => uuid_parsed(s@) == Some(id@),
                Err(_) => uuid_parsed(s@) is None,
            },
            forall|v: u128| #[trigger] uuid_text(v) == s@ ==> (r matches Ok(id) && id@ == v),
    {
        match uuid_from_text(s) {
            Ok(v) => Ok(PageId(v)),
            Err(_) => Err(IdParseError),
        }
    }
}

impl Default for PageId {
    fn default() -> (r: Self)
        ensures
            uuid_version(r@) == 7,
    {
        Self::new()
    }
}

/// A UUIDv7-based identifier for a database.
#[derive(Debug, Clone, Copy, PartialEq, Eq, Hash, Structural)]
pub struct DatabaseId(u128);

impl View for DatabaseId {
    type V = u128;

    closed spec fn view(&self) -> u128 {
        self.0
    }
}

impl DatabaseId {
    /// Generates a new time-ordered UUIDv7 identifier.
    pub fn new() -> (r: Self)
        ensures
            uuid_version(r@) == 7,
    {
        DatabaseId(fresh_v7())
    }

    /// Returns the 128-bit value of the UUID.
    pub fn as_uuid(&self) -> (r: u128)
        ensures
            r == self@,
    {
        self.0
    }

    /// The identifier with the given 128-bit UUID value.
    pub fn from_uuid(v: u128) -> (r: Self)
        ensures
            r@ == v,
    {
        DatabaseId(v)
    }

    /// The hyphenated lowercase text of the identifier.
    pub fn to_string(&self) -> (r: String)
        ensures
            r@ == uuid_text(self@),
    {
        uuid_to_text(self.0)
    }

    /// Parses an identifier from its text; the text of an identifier parses
    /// back to that identifier.
    pub fn from_str(s: &str) -> (r: Result<Self, IdParseError>)
        ensures
            match r {
                Ok(id) => uuid_parsed(s@) == Some(id@),
                Err(_) => uuid_parsed(s@) is None,
            },
            forall|v: u128| #[trigger] uuid_text(v) == s@ ==> (r matches Ok(id) && id@ == v),
    {
        match uuid_from_text(s) {
            Ok(v) => Ok(DatabaseId(v)),
            Err(_) => Err(IdParseError),
        }
    }
}

impl Default for DatabaseId {
    fn default() -> (r: Self)
        ensures
            uuid_version(r@) == 7,
    {
        Self::new()
    }
}

/// A UUIDv7-based identifier for a property.
#[derive(Debug, Clone, Copy, PartialEq, Eq, Hash, Structural)]
pub struct PropertyId(u128);

impl View for PropertyId {
    type V = u128;

    closed spec fn view(&self) -> u128 {
        self.0
    }
}

impl PropertyId {
    /// Generates a new time-ordered UUIDv7 identifier.
    pub fn new() -> (r: Self)
        ensures
            uuid_version(r@) == 7,
    {
        PropertyId(fresh_v7())
    }

    /// Returns the 128-bit value of the UUID.
    pub fn as_uuid(&self) -> (r: u128)
        ensures
            r == self@,
    {
        self.0
    }

    /// The identifier with the given 128-bit UUID value.
    pub fn from_uuid(v: u128) -> (r: Self)
        ensures
            r@ == v,
    {
        PropertyId(v)
    }

    /// The hyphenated lowercase text of the identifier.
    pub fn to_string(&self) -> (r: String)
        ensures
            r@ == uuid_text(self@),
    {
        uuid_to_text(self.0)
    }

    /// Parses an identifier from its text; the text of an identifier parses
    /// back to that identifier.
    pub fn from_str(s: &str) -> (r: Result<Self, IdParseError>)
        ensures
            match r {
                Ok(id) => uuid_parsed(s@) == Some(id@),
                Err(_) => uuid_parsed(s@) is None,
            },
            forall|v: u128| #[trigger] uuid_text(v) == s@ ==> (r matches Ok(id) && id@ == v),
    {
        match uuid_from_text(s) {
            Ok(v) => Ok(PropertyId(v)),
            Err(_) => Err(IdParseError),
        }
    }
}

impl Default for PropertyId {
    fn default() -> (r: Self)
        ensures
            uuid_version(r@) == 7,
    {
        Self::new()
    }
}

/// A UUIDv7-based identifier for a select option.
#[derive(Debug, Clone, Copy, PartialEq, Eq, Hash, Structural)]
pub struct SelectOptionId(u128);

impl View for SelectOptionId {
    type V = u128;

    closed spec fn view(&self) -> u128 {
        self.0
    }
}

impl SelectOptionId {
    /// Generates a new time-ordered UUIDv7 identifier.
    pub fn new() -> (r: Self)
        ensures
            uuid_version(r@) == 7,
    {
        SelectOptionId(fresh_v7())
    }

    /// Returns the 128-bit value of the UUID.
    pub fn as_uuid(&self) -> (r: u128)
        ensures
            r == self@,
    {
        self.0
    }

    /// The identifier with the given 128-bit UUID value.
    pub fn from_uuid(v: u128) -> (r: Self)
        ensures
            r@ == v,
    {
        SelectOptionId(v)
    }

    /// The hyphenated lowercase text of the identifier.
    pub fn to_string(&self) -> (r: String)
        ensures
            r@ == uuid_text(self@),
    {
        uuid_to_text(self.0)
    }

    /// Parses an identifier from its text; the text of an identifier parses
    /// back to that identifier.
    pub fn from_str(s: &str) -> (r: Result<Self, IdParseError>)
        ensures
            match r {
                Ok(id) => uuid_parsed(s@) == Some(id@),
                Err(_) => uuid_parsed(s@) is None,
            },
            forall|v: u128| #[trigger] uuid_text(v) == s@ ==> (r matches Ok(id) && id@ == v),
    {
        match uuid_from_text(s) {
            Ok(v) => Ok(SelectOptionId(v)),
            Err(_) => Err(IdParseError),
        }
    }
}

impl Default for SelectOptionId {
    fn default() -> (r: Self)
        ensures
            uuid_version(r@) == 7,
    {
        Self::new()
    }
}

/// A UUIDv7-based identifier for a property value.
#[derive(Debug, Clone, Copy, PartialEq, Eq, Hash, Structural)]
pub struct PropertyValueId(u128);

impl View for PropertyValueId {
    type V = u128;

    closed spec fn view(&self) -> u128 {
        self.0
    }
}

impl PropertyValueId {
    /// Generates a new time-ordered UUIDv7 identifier.
    pub fn new() -> (r: Self)
        ensures
            uuid_version(r@) == 7,
    {
        PropertyValueId(fresh_v7())
    }

    /// Returns the 128-bit value of the UUID.
    pub fn as_uuid(&self) -> (r: u128)
        ensures
            r == self@,
    {
        self.0
    }

    /// The identifier with the given 128-bit UUID value.
    pub fn from_uuid(v: u128) -> (r: Self)
        ensures
            r@ == v,
    {
        PropertyValueId(v)
    }

    /// The hyphenated lowercase text of the identifier.
    pub fn to_string(&self) -> (r: String)
        ensures
            r@ == uuid_text(self@),
    {
        uuid_to_text(self.0)
    }

    /// Parses an identifier from its text; the text of an identifier parses
    /// back to that identifier.
    pub fn from_str(s: &str) -> (r: Result<Self, IdParseError>)
        ensures
            match r {
                Ok(id) => uuid_parsed(s@) == Some(id@),
                Err(_) => uuid_parsed(s@) is None,
            },
            forall|v: u128| #[trigger] uuid_text(v) == s@ ==> (r matches Ok(id) && id@ == v),
    {
        match uuid_from_text(s) {
            Ok(v) => Ok(PropertyValueId(v)),
            Err(_) => Err(IdParseError),
        }
    }
}

impl Default for PropertyValueId {
    fn default() -> (r: Self)
        ensures
            uuid_version(r@) == 7,
    {
        Self::new()
    }
}

/// A UUIDv7-based identifier for a view.
#[derive(Debug, Clone, Copy, PartialEq, Eq, Hash, Structural)]
pub struct ViewId(u128);

impl View for ViewId {
    type V = u128;

    closed spec fn view(&self) -> u128 {
        self.0
    }
}

impl ViewId {
    /// Generates a new time-ordered UUIDv7 identifier.
    pub fn new() -> (r: Self)
        ensures
            uuid_version(r@) == 7,
    {
        ViewId(fresh_v7())
    }

    /// Returns the 128-bit value of the UUID.
    pub fn as_uuid(&self) -> (r: u128)
        ensures
            r == self@,
    {
        self.0
    }

    /// The identifier with the given 128-bit UUID value.
    pub fn from_uuid(v: u128) -> (r: Self)
        ensures
            r@ == v,
    {
        ViewId(v)
    }

    /// The hyphenated lowercase text of the identifier.
    pub fn to_string(&self) -> (r: String)
        ensures
            r@ == uuid_text(self@),
    {
        uuid_to_text(self.0)
    }

    /// Parses an identifier from its text; the text of an identifier parses
    /// back to that identifier.
    pub fn from_str(s: &str) -> (r: Result<Self, IdParseError>)
        ensures
            match r {
                Ok(id) => uuid_parsed(s@) == Some(id@),
                Err(_) => uuid_parsed(s@) is None,
            },
            forall|v: u128| #[trigger] uuid_text(v) == s@ ==> (r matches Ok(id) && id@ == v),
    {
        match uuid_from_text(s) {
            Ok(v) => Ok(ViewId(v)),
            Err(_) => Err(IdParseError),
        }
    }
}

impl Default for ViewId {
    fn default() -> (r: Self)
        ensures
            uuid_version(r@) == 7,
    {
        Self::new()
    }
}

} // verus!
