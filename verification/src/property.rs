//! Properties: the typed columns of a database, their configuration, and
//! the values that pages hold for them.

use vstd::prelude::*;
use crate::ids::{DatabaseId, PageId, PropertyId, PropertyValueId, SelectOptionId, uuid_text, uuid_version};
use crate::number::{f64_finite, f64_zero, is_finite, is_zero};
use crate::text::{
    concat2, concat3, concat4, concat5, decimal, i64_text, text_eq, trim, trim_and_count, usize_text,
};
use crate::time::Timestamp;

verus! {

/// Maximum number of characters allowed in a property name.
pub const MAX_NAME_LENGTH: usize = 100;

/// Maximum number of properties a single database may contain (enforced
/// where properties are added, not by the entity).
pub const MAX_PROPERTIES: usize = 50;

/// Maximum number of select options a single property may contain.
pub const MAX_SELECT_OPTIONS: usize = 100;

/// Maximum number of characters allowed in a select-option value.
pub const MAX_OPTION_VALUE_LENGTH: usize = 100;

/// Errors originating from the Property domain model.
#[derive(Debug, Clone, PartialEq)]
pub enum PropertyError {
    /// The property name was empty after trimming whitespace.
    NameEmpty,
    /// The property name exceeded the maximum allowed length.
    NameTooLong {
        /// Actual character count.
        len: usize,
        /// Maximum allowed character count.
        max: usize,
    },
    /// A property with the same name already exists in the database.
    DuplicateName {
        /// The duplicate name.
        name: String,
        /// The database where the duplicate was found.
        database_id: DatabaseId,
    },
    /// The property type value is invalid.
    InvalidType {
        /// The invalid value.
        value: String,
    },
    /// Too many properties in a database.
    TooManyProperties {
        /// Actual property count.
        count: usize,
        /// Maximum allowed count.
        max: usize,
    },
    /// No property was found with the given ID.
    NotFound {
        /// The ID that was looked up.
        id: PropertyId,
    },
    /// The property configuration is invalid.
    InvalidConfig {
        /// Description of the config error.
        reason: String,
    },
    /// Too many select options.
    TooManyOptions {
        /// Actual option count.
        count: usize,
        /// Maximum allowed count.
        max: usize,
    },
    /// A select option value was empty.
    OptionValueEmpty,
    /// A select option value is duplicated.
    DuplicateOptionValue {
        /// The duplicated value.
        value: String,
    },
}

/// Errors originating from the PropertyValue domain model.
#[derive(Debug, Clone, PartialEq)]
pub enum PropertyValueError {
    /// The number value is invalid (NaN or infinite).
    InvalidNumber {
        /// Description of the number error.
        reason: String,
    },
    /// The date value is invalid.
    InvalidDate {
        /// Description of the date error.
        reason: String,
    },
    /// The select option ID does not exist in the property's configuration.
    InvalidSelectOption {
        /// The option ID that was not found.
        option_id: String,
        /// The property that was checked.
        property_id: PropertyId,
    },
    /// The value type does not match the property type.
    TypeMismatch {
        /// The property type that was expected.
        expected: PropertyType,
        /// The property that was checked.
        property_id: PropertyId,
    },
    /// The page is not in the database that owns this property.
    PageNotInDatabase {
        /// The page ID.
        page_id: PageId,
        /// The database ID.
        database_id: DatabaseId,
    },
    /// No property value was found with the given ID.
    NotFound {
        /// The ID that was looked up.
        id: PropertyValueId,
    },
}

/// The message describing a property error.
pub open spec fn property_error_message(e: PropertyError) -> Seq<char> {
    match e {
        PropertyError::NameEmpty => "property name must not be empty"@,
        PropertyError::NameTooLong { len, max } => "property name too long: "@ + decimal(len as int)
            + " characters (max "@ + decimal(max as int) + ")"@,
        PropertyError::DuplicateName { name, database_id } => "duplicate property name '"@
            + name@ + "' in database "@ + uuid_text(database_id@),
        PropertyError::InvalidType { value } => "invalid property type: "@ + value@,
        PropertyError::TooManyProperties { count, max } => "too many properties: "@ + decimal(
            count as int,
        ) + " (max "@ + decimal(max as int) + ")"@,
        PropertyError::NotFound { id } => "property not found: "@ + uuid_text(id@),
        PropertyError::InvalidConfig { reason } => "invalid property config: "@ + reason@,
        PropertyError::TooManyOptions { count, max } => "too many select options: "@ + decimal(
            count as int,
        ) + " (max "@ + decimal(max as int) + ")"@,
        PropertyError::OptionValueEmpty => "select option value must not be empty"@,
        PropertyError::DuplicateOptionValue { value } => "duplicate select option value: "@
            + value@,
    }
}

impl PropertyError {
    /// The message describing the error.
    pub fn to_string(&self) -> (r: String)
        ensures
            r@ == property_error_message(*self),
    {
        match self {
            PropertyError::NameEmpty => String::from_str("property name must not be empty"),
            PropertyError::NameTooLong { len, max } => {
                let a = usize_text(*len);
                let b = usize_text(*max);
                concat5("property name too long: ", a.as_str(), " characters (max ", b.as_str(), ")")
            },
            PropertyError::DuplicateName { name, database_id } => {
                let b = database_id.to_string();
                concat4("duplicate property name '", name.as_str(), "' in database ", b.as_str())
            },
            PropertyError::InvalidType { value } => concat2("invalid property type: ", value.as_str()),
            PropertyError::TooManyProperties { count, max } => {
                let a = usize_text(*count);
                let b = usize_text(*max);
                concat5("too many properties: ", a.as_str(), " (max ", b.as_str(), ")")
            },
            PropertyError::NotFound { id } => {
                let a = id.to_string();
                concat2("property not found: ", a.as_str())
            },
            PropertyError::InvalidConfig { reason } => concat2("invalid property config: ", reason.as_str()),
            PropertyError::TooManyOptions { count, max } => {
                let a = usize_text(*count);
                let b = usize_text(*max);
                concat5("too many select options: ", a.as_str(), " (max ", b.as_str(), ")")
            },
            PropertyError::OptionValueEmpty => String::from_str("select option value must not be empty"),
            PropertyError::DuplicateOptionValue { value } => concat2(
                "duplicate select option value: ",
                value.as_str(),
            ),
        }
    }
}

/// The message describing a property value error.
pub open spec fn property_value_error_message(e: PropertyValueError) -> Seq<char> {
    match e {
        PropertyValueError::InvalidNumber { reason } => "invalid number: "@ + reason@,
        PropertyValueError::InvalidDate { reason } => "invalid date: "@ + reason@,
        PropertyValueError::InvalidSelectOption { option_id, property_id } =>
            "invalid select option '"@ + option_id@ + "' for property "@ + uuid_text(property_id@),
        PropertyValueError::TypeMismatch { expected, property_id } => "type mismatch: expected "@
            + property_type_name(expected) + " for property "@ + uuid_text(property_id@),
        PropertyValueError::PageNotInDatabase { page_id, database_id } => "page "@ + uuid_text(
            page_id@,
        ) + " not in database "@ + uuid_text(database_id@),
        PropertyValueError::NotFound { id } => "property value not found: "@ + uuid_text(id@),
    }
}

impl PropertyValueError {
    /// The message describing the error.
    pub fn to_string(&self) -> (r: String)
        ensures
            r@ == property_value_error_message(*self),
    {
        match self {
            PropertyValueError::InvalidNumber { reason } => concat2("invalid number: ", reason.as_str()),
            PropertyValueError::InvalidDate { reason } => concat2("invalid date: ", reason.as_str()),
            PropertyValueError::InvalidSelectOption { option_id, property_id } => {
                let b = property_id.to_string();
                concat4("invalid select option '", option_id.as_str(), "' for property ", b.as_str())
            },
            PropertyValueError::TypeMismatch { expected, property_id } => {
                let a = expected.to_string();
                let b = property_id.to_string();
                concat4("type mismatch: expected ", a.as_str(), " for property ", b.as_str())
            },
            PropertyValueError::PageNotInDatabase { page_id, database_id } => {
                let a = page_id.to_string();
                let b = database_id.to_string();
                concat4("page ", a.as_str(), " not in database ", b.as_str())
            },
            PropertyValueError::NotFound { id } => {
                let a = id.to_string();
                concat2("property value not found: ", a.as_str())
            },
        }
    }
}

/// A validated property name (1–100 Unicode characters after trimming).
#[derive(Debug, Clone, PartialEq, Eq)]
pub struct PropertyName(String);

impl View for PropertyName {
    type V = Seq<char>;

    closed spec fn view(&self) -> Seq<char> {
        self.0@
    }
}

impl PropertyName {
    /// Returns the inner string slice.
    pub fn as_str(&self) -> (r: &str)
        ensures
            r@ == self@,
    {
        self.0.as_str()
    }

    /// Creates a [`PropertyName`] after trimming and validating the input.
    ///
    /// # Errors
    ///
    /// - [`PropertyError::NameEmpty`] if the trimmed string is empty.
    /// - [`PropertyError::NameTooLong`] if the trimmed string exceeds 100 characters.
    pub fn try_from(value: String) -> (r: Result<Self, PropertyError>)
        ensures
            match r {
                Ok(t) => 0 < trim(value@).len() <= MAX_NAME_LENGTH && t@ == trim(value@),
                Err(e) => if trim(value@).len() == 0 {
                    e == PropertyError::NameEmpty
                } else {
                    trim(value@).len() > MAX_NAME_LENGTH && e == (PropertyError::NameTooLong {
                        len: trim(value@).len() as usize,
                        max: MAX_NAME_LENGTH,
                    })
                },
            },
    {
        let (trimmed, len) = trim_and_count(value.as_str());
        if len == 0 {
            return Err(PropertyError::NameEmpty);
        }
        if len > MAX_NAME_LENGTH {
            return Err(PropertyError::NameTooLong { len, max: MAX_NAME_LENGTH });
        }
        Ok(PropertyName(trimmed))
    }
}

/// The fundamental type of a property column in a database.
#[derive(Debug, Clone, Copy, PartialEq, Eq, Hash, Structural)]
pub enum PropertyType {
    /// Free-form text.
    Text,
    /// Numeric value.
    Number,
    /// Date or date-time value.
    Date,
    /// Single-select from a predefined list.
    Select,
    /// Boolean toggle.
    Checkbox,
}

/// The lowercase name of a property type, as it is displayed and stored.
pub open spec fn property_type_name(t: PropertyType) -> Seq<char> {
    match t {
        PropertyType::Text => "text"@,
        PropertyType::Number => "number"@,
        PropertyType::Date => "date"@,
        PropertyType::Select => "select"@,
        PropertyType::Checkbox => "checkbox"@,
    }
}

impl PropertyType {
    /// The lowercase name of the type (`"text"`, `"number"`, `"date"`,
    /// `"select"` or `"checkbox"`).
    pub fn to_string(&self) -> (r: String)
        ensures
            r@ == property_type_name(*self),
    {
        match self {
            PropertyType::Text => String::from_str("text"),
            PropertyType::Number => String::from_str("number"),
            PropertyType::Date => String::from_str("date"),
            PropertyType::Select => String::from_str("select"),
            PropertyType::Checkbox => String::from_str("checkbox"),
        }
    }
}

/// Parses a stored property-type name into a [`PropertyType`].
///
/// # Errors
///
/// [`PropertyError::InvalidType`] if the name is not one of the five type names.
pub fn parse_property_type(s: &str) -> (r: Result<PropertyType, PropertyError>)
    ensures
        match r {
            Ok(t) => property_type_name(t) == s@,
            Err(e) => (forall|t: PropertyType| property_type_name(t) != s@) && (e matches PropertyError::InvalidType { value } && value@ == s@),
        },
{
    proof {
        reveal_strlit("text");
        reveal_strlit("number");
        reveal_strlit("date");
        reveal_strlit("select");
        reveal_strlit("checkbox");
    }
    if text_eq(s, "text") {
        Ok(PropertyType::Text)
    } else if text_eq(s, "number") {
        Ok(PropertyType::Number)
    } else if text_eq(s, "date") {
        Ok(PropertyType::Date)
    } else if text_eq(s, "select") {
        Ok(PropertyType::Select)
    } else if text_eq(s, "checkbox") {
        Ok(PropertyType::Checkbox)
    } else {
        proof {
            assert forall|t: PropertyType| property_type_name(t) != s@ by {
                match t {
                    PropertyType::Text => {},
                    PropertyType::Number => {},
                    PropertyType::Date => {},
                    PropertyType::Select => {},
                    PropertyType::Checkbox => {},
                }
            }
        }
        Err(PropertyError::InvalidType { value: s.to_owned() })
    }
}

/// A single option of a select property.
#[derive(Debug, Clone, PartialEq, Eq)]
pub struct SelectOption {
    /// The unique identifier for this option.
    pub id: SelectOptionId,
    /// The display value of this option.
    pub value: String,
}

/// Whether a date property stores a date only or a full date-time.
#[derive(Debug, Clone, Copy, PartialEq, Eq, Structural)]
pub enum DateMode {
    /// Date only (no time component).
    Date,
    /// Full date and time.
    DateTime,
}

/// Type-specific configuration for a [`Property`].
#[derive(Debug, Clone, PartialEq)]
pub enum PropertyConfig {
    /// Configuration for a text property.
    Text,
    /// Configuration for a number property.
    Number,
    /// Configuration for a date property.
    Date {
        /// Whether the property stores date-only or date-time.
        mode: DateMode,
    },
    /// Configuration for a single-select property.
    Select {
        /// The available options for selection.
        options: Vec<SelectOption>,
    },
    /// Configuration for a checkbox property.
    Checkbox,
}

/// The type of property that a configuration belongs to.
pub open spec fn config_type(c: PropertyConfig) -> PropertyType {
    match c {
        PropertyConfig::Text => PropertyType::Text,
        PropertyConfig::Number => PropertyType::Number,
        PropertyConfig::Date { .. } => PropertyType::Date,
        PropertyConfig::Select { .. } => PropertyType::Select,
        PropertyConfig::Checkbox => PropertyType::Checkbox,
    }
}

/// The capitalised label of a configuration's variant.
pub open spec fn config_label(c: PropertyConfig) -> Seq<char> {
    match c {
        PropertyConfig::Text => "Text"@,
        PropertyConfig::Number => "Number"@,
        PropertyConfig::Date { .. } => "Date"@,
        PropertyConfig::Select { .. } => "Select"@,
        PropertyConfig::Checkbox => "Checkbox"@,
    }
}

/// The trimmed value of the `i`-th option.
pub open spec fn option_trim(options: Seq<SelectOption>, i: int) -> Seq<char> {
    trim(options[i].value@)
}

/// Whether the `i`-th option is at fault: its trimmed value is empty, too
/// long, or equal to the trimmed value of an earlier option.
pub open spec fn option_fault(options: Seq<SelectOption>, i: int) -> bool {
    ||| option_trim(options, i).len() == 0
    ||| option_trim(options, i).len() > MAX_OPTION_VALUE_LENGTH
    ||| exists|j: int| 0 <= j < i && option_trim(options, j) == option_trim(options, i)
}

/// The error reported for the faulty `i`-th option.
pub open spec fn option_fault_error(options: Seq<SelectOption>, i: int, e: PropertyError) -> bool {
    let t = option_trim(options, i);
    if t.len() == 0 {
        e == PropertyError::OptionValueEmpty
    } else if t.len() > MAX_OPTION_VALUE_LENGTH {
        e matches PropertyError::InvalidConfig { reason } && reason@ == "select option value too long: "@
            + decimal(t.len() as int) + " characters (max 100)"@
    } else {
        e matches PropertyError::DuplicateOptionValue { value } && value@ == t
    }
}

/// The outcome of validating select options: too many options are refused
/// first; otherwise the first faulty option decides the error.
pub open spec fn options_outcome(options: Seq<SelectOption>, r: Result<(), PropertyError>) -> bool {
    if options.len() > MAX_SELECT_OPTIONS {
        r == Err::<(), PropertyError>(
            PropertyError::TooManyOptions { count: options.len() as usize, max: MAX_SELECT_OPTIONS },
        )
    } else {
        &&& r is Ok <==> forall|i: int| 0 <= i < options.len() ==> !option_fault(options, i)
        &&& r matches Err(e) ==> exists|i: int|
            0 <= i < options.len() && option_fault(options, i) && (forall|j: int|
                0 <= j < i ==> !option_fault(options, j)) && option_fault_error(options, i, e)
    }
}

/// The reason reported for a negative position.
pub open spec fn negative_position_reason(position: i64) -> Seq<char> {
    "position must be non-negative, got "@ + decimal(position as int)
}

/// The reason reported for a configuration of the wrong type.
pub open spec fn mismatch_reason(t: PropertyType, c: PropertyConfig) -> Seq<char> {
    "config type '"@ + config_label(c) + "' does not match property type '"@ + property_type_name(t) + "'"@
}

/// The outcome of checking a configuration against a property type.
pub open spec fn config_outcome(
    t: PropertyType,
    config: Option<PropertyConfig>,
    r: Result<(), PropertyError>,
) -> bool {
    match config {
        None => r is Ok,
        Some(c) => if config_type(c) != t {
            r matches Err(PropertyError::InvalidConfig { reason }) && reason@ == mismatch_reason(t, c)
        } else {
            match c {
                PropertyConfig::Select { options } => options_outcome(options@, r),
                _ => r is Ok,
            }
        },
    }
}

/// Validates that a position value is non-negative.
///
/// # Errors
///
/// [`PropertyError::InvalidConfig`] if the position is negative.
pub fn validate_position(position: i64) -> (r: Result<(), PropertyError>)
    ensures
        r is Ok <==> position >= 0,
        r matches Err(e) ==> e matches PropertyError::InvalidConfig { reason } && reason@
            == negative_position_reason(position),
{
    if position < 0 {
        let n = i64_text(position);
        let mut reason = String::from_str("position must be non-negative, got ");
        reason.append(n.as_str());
        return Err(PropertyError::InvalidConfig { reason });
    }
    Ok(())
}

/// Returns the capitalised label of a configuration's variant.
fn config_type_label(config: &PropertyConfig) -> (r: String)
    ensures
        r@ == config_label(*config),
{
    match config {
        PropertyConfig::Text => String::from_str("Text"),
        PropertyConfig::Number => String::from_str("Number"),
        PropertyConfig::Date { .. } => String::from_str("Date"),
        PropertyConfig::Select { .. } => String::from_str("Select"),
        PropertyConfig::Checkbox => String::from_str("Checkbox"),
    }
}

/// Validates select-option constraints: at most 100 options, each value
/// 1–100 characters after trimming, and trimmed values unique
/// (case-sensitive).
fn validate_select_options(options: &[SelectOption]) -> (r: Result<(), PropertyError>)
    ensures
        options_outcome(options@, r),
{
    if options.len() > MAX_SELECT_OPTIONS {
        return Err(PropertyError::TooManyOptions { count: options.len(), max: MAX_SELECT_OPTIONS });
    }
    let mut seen: Vec<String> = Vec::new();
    let mut i: usize = 0;
    while i < options.len()
        invariant
            i <= options.len(),
            options.len() <= MAX_SELECT_OPTIONS,
            seen@.len() == i,
            forall|j: int| 0 <= j < i ==> #[trigger] seen@[j]@ == option_trim(options@, j),
            forall|j: int| 0 <= j < i ==> !option_fault(options@, j),
        decreases options.len() - i,
    {
        let (trimmed, char_count) = trim_and_count(options[i].value.as_str());
        if char_count == 0 {
            let e = PropertyError::OptionValueEmpty;
            proof {
                assert(option_fault(options@, i as int));
                assert(option_fault_error(options@, i as int, e));
            }
            return Err(e);
        }
        if char_count > MAX_OPTION_VALUE_LENGTH {
            let n = usize_text(char_count);
            let reason = concat3("select option value too long: ", n.as_str(), " characters (max 100)");
            let e = PropertyError::InvalidConfig { reason };
            proof {
                assert(option_fault(options@, i as int));
                assert(option_fault_error(options@, i as int, e));
            }
            return Err(e);
        }
        let mut k: usize = 0;
        while k < seen.len()
            invariant
                k <= seen.len(),
                seen@.len() == i,
                i < options.len(),
                trimmed@ == option_trim(options@, i as int),
                0 < option_trim(options@, i as int).len() <= MAX_OPTION_VALUE_LENGTH,
                options.len() <= MAX_SELECT_OPTIONS,
                forall|j: int| 0 <= j < i ==> !option_fault(options@, j),
                forall|j: int| 0 <= j < i ==> #[trigger] seen@[j]@ == option_trim(options@, j),
                forall|j: int| 0 <= j < k ==> option_trim(options@, j) != trimmed@,
            decreases seen.len() - k,
        {
            if seen[k] == trimmed {
                proof {
                    assert(option_trim(options@, k as int) == option_trim(options@, i as int));
                    assert(option_fault(options@, i as int));
                }
                let e = PropertyError::DuplicateOptionValue { value: trimmed };
                proof {
                    assert(option_fault_error(options@, i as int, e));
                }
                return Err(e);
            }
            k = k + 1;
        }
        seen.push(trimmed);
        i = i + 1;
    }
    Ok(())
}

/// Validates that a configuration is consistent with the property type.
fn validate_config_consistency(property_type: PropertyType, config: &Option<PropertyConfig>) -> (r:
    Result<(), PropertyError>)
    ensures
        config_outcome(property_type, *config, r),
{
    let cfg = match config {
        Some(c) => c,
        None => return Ok(()),
    };
    match (property_type, cfg) {
        (PropertyType::Text, PropertyConfig::Text) => Ok(()),
        (PropertyType::Number, PropertyConfig::Number) => Ok(()),
        (PropertyType::Date, PropertyConfig::Date { .. }) => Ok(()),
        (PropertyType::Select, PropertyConfig::Select { options }) => validate_select_options(
            options.as_slice(),
        ),
        (PropertyType::Checkbox, PropertyConfig::Checkbox) => Ok(()),
        _ => {
            let label = config_type_label(cfg);
            let tname = property_type.to_string();
            let reason = concat5(
                "config type '",
                label.as_str(),
                "' does not match property type '",
                tname.as_str(),
                "'",
            );
            Err(PropertyError::InvalidConfig { reason })
        },
    }
}

/// What a [`Property`] holds, as plain values.
pub struct PropertyView {
    /// The property's identifier.
    pub id: PropertyId,
    /// The database it belongs to.
    pub database_id: DatabaseId,
    /// The name.
    pub name: Seq<char>,
    /// The type.
    pub property_type: PropertyType,
    /// The configuration, if any.
    pub config: Option<PropertyConfig>,
    /// The display-order position.
    pub position: i64,
    /// The creation time.
    pub created_at: Timestamp,
    /// The last update time.
    pub updated_at: Timestamp,
}

/// A property (column) within a database, defining its type and
/// configuration.
#[derive(Debug, Clone)]
pub struct Property {
    id: PropertyId,
    database_id: DatabaseId,
    name: PropertyName,
    property_type: PropertyType,
    config: Option<PropertyConfig>,
    position: i64,
    created_at: Timestamp,
    updated_at: Timestamp,
}

impl View for Property {
    type V = PropertyView;

    closed spec fn view(&self) -> PropertyView {
        PropertyView {
            id: self.id,
            database_id: self.database_id,
            name: self.name@,
            property_type: self.property_type,
            config: self.config,
            position: self.position,
            created_at: self.created_at,
            updated_at: self.updated_at,
        }
    }
}

impl Property {
    /// Creates a new property with a generated UUIDv7 ID and both timestamps
    /// set to the current time, after checking that the position is
    /// non-negative and that the configuration (if any) matches the type;
    /// a select configuration must have at most 100 options with unique
    /// values of 1–100 characters.
    ///
    /// # Errors
    ///
    /// [`PropertyError`] naming the first constraint violated.
    pub fn new(
        database_id: DatabaseId,
        name: PropertyName,
        property_type: PropertyType,
        config: Option<PropertyConfig>,
        position: i64,
    ) -> (r: Result<Self, PropertyError>)
        ensures
            position < 0 ==> (r matches Err(PropertyError::InvalidConfig { reason }) && reason@
                == negative_position_reason(position)),
            position >= 0 ==> match r {
                Ok(p) => config_outcome(property_type, config, Ok(())) && p@.database_id
                    == database_id && p@.name == name@ && p@.property_type == property_type
                    && p@.config == config && p@.position == position && p@.created_at
                    == p@.updated_at && uuid_version(p@.id@) == 7,
                Err(e) => config_outcome(property_type, config, Err(e)),
            },
    {
        validate_position(position)?;
        validate_config_consistency(property_type, &config)?;
        let now = Timestamp::now();
        Ok(
            Property {
                id: PropertyId::new(),
                database_id,
                name,
                property_type,
                config,
                position,
                created_at: now,
                updated_at: now,
            },
        )
    }

    /// Reconstructs a property from stored fields, without validation.
    pub fn from_stored(
        id: PropertyId,
        database_id: DatabaseId,
        name: PropertyName,
        property_type: PropertyType,
        config: Option<PropertyConfig>,
        position: i64,
        created_at: Timestamp,
        updated_at: Timestamp,
    ) -> (r: Self)
        ensures
            r@ == (PropertyView {
                id,
                database_id,
                name: name@,
                property_type,
                config,
                position,
                created_at,
                updated_at,
            }),
    {
        Property { id, database_id, name, property_type, config, position, created_at, updated_at }
    }

    /// Returns a reference to the property's ID.
    pub fn id(&self) -> (r: &PropertyId)
        ensures
            *r == self@.id,
    {
        &self.id
    }

    /// Returns a reference to the owning database's ID.
    pub fn database_id(&self) -> (r: &DatabaseId)
        ensures
            *r == self@.database_id,
    {
        &self.database_id
    }

    /// Returns a reference to the property's name.
    pub fn name(&self) -> (r: &PropertyName)
        ensures
            r@ == self@.name,
    {
        &self.name
    }

    /// Returns the property's type.
    pub fn property_type(&self) -> (r: PropertyType)
        ensures
            r == self@.property_type,
    {
        self.property_type
    }

    /// Returns the property's configuration, if any.
    pub fn config(&self) -> (r: Option<&PropertyConfig>)
        ensures
            match r {
                Some(c) => self@.config == Some(*c),
                None => self@.config is None,
            },
    {
        match &self.config {
            Some(c) => Some(c),
            None => None,
        }
    }

    /// Returns the property's display-order position.
    pub fn position(&self) -> (r: i64)
        ensures
            r == self@.position,
    {
        self.position
    }

    /// Returns the creation timestamp.
    pub fn created_at(&self) -> (r: Timestamp)
        ensures
            r == self@.created_at,
    {
        self.created_at
    }

    /// Returns the last-updated timestamp.
    pub fn updated_at(&self) -> (r: Timestamp)
        ensures
            r == self@.updated_at,
    {
        self.updated_at
    }
}

/// Raw user input for a property value, dispatched by property type. A
/// number is given as its IEEE-754 bit pattern.
#[derive(Debug, Clone)]
pub enum PropertyValueInput {
    /// Free-form text input.
    Text(String),
    /// Numeric input (the `f64::to_bits` pattern).
    Number(u64),
    /// Date/date-time input.
    Date(Timestamp),
    /// Select option input (the option ID as a string).
    Select(String),
    /// Boolean input.
    Checkbox(bool),
}

/// Whether the input's variant fits the property type.
pub open spec fn input_fits(t: PropertyType, input: PropertyValueInput) -> bool {
    match (t, input) {
        (PropertyType::Text, PropertyValueInput::Text(_)) => true,
        (PropertyType::Number, PropertyValueInput::Number(_)) => true,
        (PropertyType::Date, PropertyValueInput::Date(_)) => true,
        (PropertyType::Select, PropertyValueInput::Select(_)) => true,
        (PropertyType::Checkbox, PropertyValueInput::Checkbox(_)) => true,
        _ => false,
    }
}

/// Whether the select configuration lists an option whose ID text is
/// `option_id`.
pub open spec fn option_listed(config: Option<PropertyConfig>, option_id: Seq<char>) -> bool {
    match config {
        Some(PropertyConfig::Select { options }) => exists|i: int|
            0 <= i < options@.len() && uuid_text(options@[i].id@) == option_id,
        _ => false,
    }
}

/// A number with negative zero replaced by positive zero.
pub open spec fn normalized(b: u64) -> u64 {
    if f64_zero(b) {
        0
    } else {
        b
    }
}

/// The reason reported for a number that is not finite.
pub open spec fn non_finite_reason() -> Seq<char> {
    "value must be finite (not NaN or Infinity)"@
}

/// What a [`PropertyValue`] holds, as plain values.
pub struct PropertyValueView {
    /// The value's identifier.
    pub id: PropertyValueId,
    /// The page it belongs to.
    pub page_id: PageId,
    /// The property it is a value of.
    pub property_id: PropertyId,
    /// The text (for text and select properties).
    pub text_value: Option<Seq<char>>,
    /// The number (bit pattern).
    pub number_value: Option<u64>,
    /// The date.
    pub date_value: Option<Timestamp>,
    /// The boolean.
    pub boolean_value: Option<bool>,
    /// The creation time.
    pub created_at: Timestamp,
    /// The last update time.
    pub updated_at: Timestamp,
}

/// Which fields a valid input fills: exactly the one of its kind.
pub open spec fn filled_from(v: PropertyValueView, input: PropertyValueInput) -> bool {
    match input {
        PropertyValueInput::Text(s) => v.text_value == Some(s@) && v.number_value is None
            && v.date_value is None && v.boolean_value is None,
        PropertyValueInput::Number(n) => v.text_value is None && v.number_value == Some(
            normalized(n),
        ) && v.date_value is None && v.boolean_value is None,
        PropertyValueInput::Date(d) => v.text_value is None && v.number_value is None
            && v.date_value == Some(d) && v.boolean_value is None,
        PropertyValueInput::Select(o) => v.text_value == Some(o@) && v.number_value is None
            && v.date_value is None && v.boolean_value is None,
        PropertyValueInput::Checkbox(b) => v.text_value is None && v.number_value is None
            && v.date_value is None && v.boolean_value == Some(b),
    }
}

/// A concrete value assigned to a property for a specific page.
#[derive(Debug, Clone)]
pub struct PropertyValue {
    id: PropertyValueId,
    page_id: PageId,
    property_id: PropertyId,
    text_value: Option<String>,
    number_value: Option<u64>,
    date_value: Option<Timestamp>,
    boolean_value: Option<bool>,
    created_at: Timestamp,
    updated_at: Timestamp,
}

/// The view of an optional string.
pub open spec fn opt_view(s: Option<String>) -> Option<Seq<char>> {
    match s {
        Some(t) => Some(t@),
        None => None,
    }
}

impl View for PropertyValue {
    type V = PropertyValueView;

    closed spec fn view(&self) -> PropertyValueView {
        PropertyValueView {
            id: self.id,
            page_id: self.page_id,
            property_id: self.property_id,
            text_value: opt_view(self.text_value),
            number_value: self.number_value,
            date_value: self.date_value,
            boolean_value: self.boolean_value,
            created_at: self.created_at,
            updated_at: self.updated_at,
        }
    }
}

/// Checks that the input's variant fits the property type.
fn validate_input_type(
    property_type: PropertyType,
    property_id: &PropertyId,
    input: &PropertyValueInput,
) -> (r: Result<(), PropertyValueError>)
    ensures
        r is Ok <==> input_fits(property_type, *input),
        r is Err ==> r == Err::<(), PropertyValueError>(
            PropertyValueError::TypeMismatch { expected: property_type, property_id: *property_id },
        ),
{
    let fits = match (property_type, input) {
        (PropertyType::Text, PropertyValueInput::Text(_)) => true,
        (PropertyType::Number, PropertyValueInput::Number(_)) => true,
        (PropertyType::Date, PropertyValueInput::Date(_)) => true,
        (PropertyType::Select, PropertyValueInput::Select(_)) => true,
        (PropertyType::Checkbox, PropertyValueInput::Checkbox(_)) => true,
        _ => false,
    };
    if !fits {
        return Err(
            PropertyValueError::TypeMismatch { expected: property_type, property_id: *property_id },
        );
    }
    Ok(())
}

/// Checks that the select configuration lists an option whose ID text is
/// `option_id`.
fn validate_select_option_exists(
    config: Option<&PropertyConfig>,
    property_id: &PropertyId,
    option_id: &str,
) -> (r: Result<(), PropertyValueError>)
    ensures
        r is Ok <==> option_listed(
            match config {
                Some(c) => Some(*c),
                None => None,
            },
            option_id@,
        ),
        r matches Err(e) ==> e matches PropertyValueError::InvalidSelectOption {
            option_id: o,
            property_id: p,
        } && o@ == option_id@ && p == *property_id,
{
    let options = match config {
        Some(c) => match c {
            PropertyConfig::Select { options } => options,
            _ => {
                return Err(
                    PropertyValueError::InvalidSelectOption {
                        option_id: option_id.to_owned(),
                        property_id: *property_id,
                    },
                )
            },
        },
        None => {
            return Err(
                PropertyValueError::InvalidSelectOption {
                    option_id: option_id.to_owned(),
                    property_id: *property_id,
                },
            )
        },
    };
    let mut i: usize = 0;
    while i < options.len()
        invariant
            i <= options.len(),
            config matches Some(c) && *c == (PropertyConfig::Select { options: *options }),
            forall|j: int| 0 <= j < i ==> uuid_text(options@[j].id@) != option_id@,
        decreases options.len() - i,
    {
        let text = options[i].id.to_string();
        if text_eq(text.as_str(), option_id) {
            proof {
                assert(uuid_text(options@[i as int].id@) == option_id@);
                let c = *config->Some_0;
                assert(c == (PropertyConfig::Select { options: *options }));
                assert(c->Select_options@ == options@);
                assert(exists|j: int| 0 <= j < c->Select_options@.len() && uuid_text(c->Select_options@[j].id@) == option_id@);
                assert(option_listed(Some(c), option_id@));
            }
            return Ok(());
        }
        i = i + 1;
    }
    Err(
        PropertyValueError::InvalidSelectOption {
            option_id: option_id.to_owned(),
            property_id: *property_id,
        },
    )
}

impl PropertyValue {
    /// Creates a value by validating `input` against the property's type and
    /// configuration: the input's variant must fit the type, a number must
    /// be finite (negative zero is stored as zero), and a select input must
    /// name an option of the configuration by its ID text.
    ///
    /// # Errors
    ///
    /// - [`PropertyValueError::TypeMismatch`] if the variant does not fit the type.
    /// - [`PropertyValueError::InvalidNumber`] if a number is NaN or infinite.
    /// - [`PropertyValueError::InvalidSelectOption`] if the option is not listed.
    pub fn new_validated(
        page_id: PageId,
        property_id: PropertyId,
        property_type: PropertyType,
        config: Option<&PropertyConfig>,
        input: PropertyValueInput,
    ) -> (r: Result<Self, PropertyValueError>)
        ensures
            !input_fits(property_type, input) ==> r == Err::<PropertyValue, PropertyValueError>(
                PropertyValueError::TypeMismatch { expected: property_type, property_id },
            ),
            input_fits(property_type, input) ==> match input {
                PropertyValueInput::Number(n) if !f64_finite(n) => r matches Err(
                    PropertyValueError::InvalidNumber { reason },
                ) && reason@ == non_finite_reason(),
                PropertyValueInput::Select(o) if !option_listed(
                    match config {
                        Some(c) => Some(*c),
                        None => None,
                    },
                    o@,
                ) => r matches Err(
                    PropertyValueError::InvalidSelectOption { option_id, property_id: p },
                ) && option_id@ == o@ && p == property_id,
                _ => r is Ok,
            },
            r matches Ok(v) ==> v@.page_id == page_id && v@.property_id == property_id
                && filled_from(v@, input) && v@.created_at == v@.updated_at && uuid_version(
                v@.id@,
            ) == 7,
    {
        validate_input_type(property_type, &property_id, &input)?;
        let mut text_value: Option<String> = None;
        let mut number_value: Option<u64> = None;
        let mut date_value: Option<Timestamp> = None;
        let mut boolean_value: Option<bool> = None;
        match input {
            PropertyValueInput::Text(s) => {
                text_value = Some(s);
            },
            PropertyValueInput::Number(n) => {
                if !is_finite(n) {
                    return Err(
                        PropertyValueError::InvalidNumber {
                            reason: String::from_str("value must be finite (not NaN or Infinity)"),
                        },
                    );
                }
                let normalized_value = if is_zero(n) {
                    0
                } else {
                    n
                };
                number_value = Some(normalized_value);
            },
            PropertyValueInput::Date(dt) => {
                date_value = Some(dt);
            },
            PropertyValueInput::Select(option_id) => {
                validate_select_option_exists(config, &property_id, option_id.as_str())?;
                text_value = Some(option_id);
            },
            PropertyValueInput::Checkbox(b) => {
                boolean_value = Some(b);
            },
        }
        let now = Timestamp::now();
        Ok(
            PropertyValue {
                id: PropertyValueId::new(),
                page_id,
                property_id,
                text_value,
                number_value,
                date_value,
                boolean_value,
                created_at: now,
                updated_at: now,
            },
        )
    }

    /// Reconstructs a value from stored fields, without validation.
    pub fn from_stored(
        id: PropertyValueId,
        page_id: PageId,
        property_id: PropertyId,
        text_value: Option<String>,
        number_value: Option<u64>,
        date_value: Option<Timestamp>,
        boolean_value: Option<bool>,
        created_at: Timestamp,
        updated_at: Timestamp,
    ) -> (r: Self)
        ensures
            r@ == (PropertyValueView {
                id,
                page_id,
                property_id,
                text_value: opt_view(text_value),
                number_value,
                date_value,
                boolean_value,
                created_at,
                updated_at,
            }),
    {
        PropertyValue {
            id,
            page_id,
            property_id,
            text_value,
            number_value,
            date_value,
            boolean_value,
            created_at,
            updated_at,
        }
    }

    /// Returns a reference to the value's ID.
    pub fn id(&self) -> (r: &PropertyValueId)
        ensures
            *r == self@.id,
    {
        &self.id
    }

    /// Returns a reference to the associated page's ID.
    pub fn page_id(&self) -> (r: &PageId)
        ensures
            *r == self@.page_id,
    {
        &self.page_id
    }

    /// Returns a reference to the associated property's ID.
    pub fn property_id(&self) -> (r: &PropertyId)
        ensures
            *r == self@.property_id,
    {
        &self.property_id
    }

    /// Returns the stored text value, if any.
    pub fn text_value(&self) -> (r: Option<&str>)
        ensures
            match r {
                Some(t) => self@.text_value == Some(t@),
                None => self@.text_value is None,
            },
    {
        match &self.text_value {
            Some(t) => Some(t.as_str()),
            None => None,
        }
    }

    /// Returns the stored number value (bit pattern), if any.
    pub fn number_value(&self) -> (r: Option<u64>)
        ensures
            r == self@.number_value,
    {
        self.number_value
    }

    /// Returns the stored date value, if any.
    pub fn date_value(&self) -> (r: Option<Timestamp>)
        ensures
            r == self@.date_value,
    {
        self.date_value
    }

    /// Returns the stored boolean value, if any.
    pub fn boolean_value(&self) -> (r: Option<bool>)
        ensures
            r == self@.boolean_value,
    {
        self.boolean_value
    }

    /// Returns the creation timestamp.
    pub fn created_at(&self) -> (r: Timestamp)
        ensures
            r == self@.created_at,
    {
        self.created_at
    }

    /// Returns the last-updated timestamp.
    pub fn updated_at(&self) -> (r: Timestamp)
        ensures
            r == self@.updated_at,
    {
        self.updated_at
    }
}

/// Validating select options accepts only options whose trimmed values are
/// 1 to 100 characters long and pairwise distinct (at any two positions, not
/// only neighbouring ones), at most 100 of them; options in which any two
/// trimmed values are equal are refused.
pub proof fn law_select_options_distinct(options: Seq<SelectOption>, r: Result<(), PropertyError>)
    requires
        options_outcome(options, r),
    ensures
        r is Ok ==> options.len() <= MAX_SELECT_OPTIONS,
        r is Ok ==> forall|i: int|
            0 <= i < options.len() ==> 0 < #[trigger] trim(options[i].value@).len() <= MAX_OPTION_VALUE_LENGTH,
        r is Ok ==> forall|j: int, i: int|
            0 <= j < i < options.len() ==> #[trigger] trim(options[j].value@) != #[trigger] trim(options[i].value@),
        (exists|j: int, i: int|
            0 <= j < i < options.len() && #[trigger] trim(options[j].value@) == #[trigger] trim(options[i].value@))
            ==> r is Err,
{
    if r is Ok {
        assert forall|i: int| 0 <= i < options.len() implies 0 < #[trigger] trim(options[i].value@).len()
            <= MAX_OPTION_VALUE_LENGTH by {
            assert(!option_fault(options, i));
        }
        assert forall|j: int, i: int| 0 <= j < i < options.len() implies #[trigger] trim(options[j].value@)
            != #[trigger] trim(options[i].value@) by {
            assert(!option_fault(options, i));
            if trim(options[j].value@) == trim(options[i].value@) {
                assert(option_trim(options, j) == option_trim(options, i));
            }
        }
    }
    if exists|j: int, i: int|
        0 <= j < i < options.len() && #[trigger] trim(options[j].value@) == #[trigger] trim(options[i].value@) {
        let (j, i) = choose|j: int, i: int|
            0 <= j < i < options.len() && #[trigger] trim(options[j].value@) == #[trigger] trim(options[i].value@);
        if options.len() <= MAX_SELECT_OPTIONS {
            assert(option_trim(options, j) == option_trim(options, i));
            assert(option_fault(options, i));
        }
    }
}

/// A select property is created only with pairwise distinct trimmed option
/// values: when the configuration check of a select property with select
/// options passes, no two options have equal trimmed values.
pub proof fn law_select_config_distinct(options: Vec<SelectOption>, r: Result<(), PropertyError>)
    requires
        config_outcome(PropertyType::Select, Some(PropertyConfig::Select { options }), r),
        r is Ok,
    ensures
        forall|j: int, i: int|
            0 <= j < i < options@.len() ==> #[trigger] trim(options@[j].value@) != #[trigger] trim(options@[i].value@),
{
    law_select_options_distinct(options@, r);
}

} // verus!
