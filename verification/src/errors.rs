//! The kind names under which errors are reported to the frontend.

use vstd::prelude::*;
use crate::block::BlockError;
use crate::database::DatabaseError;
use crate::page::PageError;
use crate::property::{PropertyError, PropertyValueError};
use crate::view::ViewError;

verus! {

/// The kind name of a page error (the hierarchy errors are named after
/// their variants).
pub open spec fn page_error_kind(e: PageError) -> Seq<char> {
    match e {
        PageError::TitleEmpty => "titleEmpty"@,
        PageError::TitleTooLong { .. } => "titleTooLong"@,
        PageError::NotFound { .. } => "notFound"@,
        PageError::AlreadyInDatabase { .. } => "pageAlreadyInDatabase"@,
        PageError::CircularReference { .. } => "circularReference"@,
        PageError::MaxDepthExceeded { .. } => "maxDepthExceeded"@,
        PageError::DatabasePageCannotNest { .. } => "databasePageCannotNest"@,
    }
}

/// The kind name of a page error.
pub fn page_kind(e: &PageError) -> (r: &'static str)
    ensures
        r@ == page_error_kind(*e),
{
    match e {
        PageError::TitleEmpty => "titleEmpty",
        PageError::TitleTooLong { .. } => "titleTooLong",
        PageError::NotFound { .. } => "notFound",
        PageError::AlreadyInDatabase { .. } => "pageAlreadyInDatabase",
        PageError::CircularReference { .. } => "circularReference",
        PageError::MaxDepthExceeded { .. } => "maxDepthExceeded",
        PageError::DatabasePageCannotNest { .. } => "databasePageCannotNest",
    }
}

/// The kind name of a block error.
pub open spec fn block_error_kind(e: BlockError) -> Seq<char> {
    match e {
        BlockError::ContentTooLong { .. } => "contentTooLong"@,
        BlockError::InvalidPosition { .. } => "invalidPosition"@,
        BlockError::NotFound { .. } => "blockNotFound"@,
        BlockError::CannotMoveUp { .. } => "cannotMoveUp"@,
        BlockError::CannotMoveDown { .. } => "cannotMoveDown"@,
    }
}

/// The kind name of a block error.
pub fn block_kind(e: &BlockError) -> (r: &'static str)
    ensures
        r@ == block_error_kind(*e),
{
    match e {
        BlockError::ContentTooLong { .. } => "contentTooLong",
        BlockError::InvalidPosition { .. } => "invalidPosition",
        BlockError::NotFound { .. } => "blockNotFound",
        BlockError::CannotMoveUp { .. } => "cannotMoveUp",
        BlockError::CannotMoveDown { .. } => "cannotMoveDown",
    }
}

/// The kind name of a database error.
pub open spec fn database_error_kind(e: DatabaseError) -> Seq<char> {
    match e {
        DatabaseError::TitleEmpty => "titleEmpty"@,
        DatabaseError::TitleTooLong { .. } => "titleTooLong"@,
        DatabaseError::NotFound { .. } => "databaseNotFound"@,
    }
}

/// The kind name of a database error.
pub fn database_kind(e: &DatabaseError) -> (r: &'static str)
    ensures
        r@ == database_error_kind(*e),
{
    match e {
        DatabaseError::TitleEmpty => "titleEmpty",
        DatabaseError::TitleTooLong { .. } => "titleTooLong",
        DatabaseError::NotFound { .. } => "databaseNotFound",
    }
}

/// The kind name of a property error; an invalid type is reported as an
/// invalid configuration.
pub open spec fn property_error_kind(e: PropertyError) -> Seq<char> {
    match e {
        PropertyError::NameEmpty => "propertyNameEmpty"@,
        PropertyError::NameTooLong { .. } => "propertyNameTooLong"@,
        PropertyError::DuplicateName { .. } => "duplicatePropertyName"@,
        PropertyError::InvalidType { .. } => "invalidConfig"@,
        PropertyError::TooManyProperties { .. } => "tooManyProperties"@,
        PropertyError::NotFound { .. } => "propertyNotFound"@,
        PropertyError::InvalidConfig { .. } => "invalidConfig"@,
        PropertyError::TooManyOptions { .. } => "tooManyOptions"@,
        PropertyError::OptionValueEmpty => "optionValueEmpty"@,
        PropertyError::DuplicateOptionValue { .. } => "duplicateOptionValue"@,
    }
}

/// The kind name of a property error.
pub fn property_kind(e: &PropertyError) -> (r: &'static str)
    ensures
        r@ == property_error_kind(*e),
{
    match e {
        PropertyError::NameEmpty => "propertyNameEmpty",
        PropertyError::NameTooLong { .. } => "propertyNameTooLong",
        PropertyError::DuplicateName { .. } => "duplicatePropertyName",
        PropertyError::InvalidType { .. } => "invalidConfig",
        PropertyError::TooManyProperties { .. } => "tooManyProperties",
        PropertyError::NotFound { .. } => "propertyNotFound",
        PropertyError::InvalidConfig { .. } => "invalidConfig",
        PropertyError::TooManyOptions { .. } => "tooManyOptions",
        PropertyError::OptionValueEmpty => "optionValueEmpty",
        PropertyError::DuplicateOptionValue { .. } => "duplicateOptionValue",
    }
}

/// The kind name of a property value error.
pub open spec fn property_value_error_kind(e: PropertyValueError) -> Seq<char> {
    match e {
        PropertyValueError::InvalidNumber { .. } => "invalidNumber"@,
        PropertyValueError::InvalidDate { .. } => "invalidDate"@,
        PropertyValueError::InvalidSelectOption { .. } => "invalidSelectOption"@,
        PropertyValueError::TypeMismatch { .. } => "typeMismatch"@,
        PropertyValueError::PageNotInDatabase { .. } => "pageNotInDatabase"@,
        PropertyValueError::NotFound { .. } => "propertyValueNotFound"@,
    }
}

/// The kind name of a property value error.
pub fn property_value_kind(e: &PropertyValueError) -> (r: &'static str)
    ensures
        r@ == property_value_error_kind(*e),
{
    match e {
        PropertyValueError::InvalidNumber { .. } => "invalidNumber",
        PropertyValueError::InvalidDate { .. } => "invalidDate",
        PropertyValueError::InvalidSelectOption { .. } => "invalidSelectOption",
        PropertyValueError::TypeMismatch { .. } => "typeMismatch",
        PropertyValueError::PageNotInDatabase { .. } => "pageNotInDatabase",
        PropertyValueError::NotFound { .. } => "propertyValueNotFound",
    }
}

/// The kind name of a view error.
pub open spec fn view_error_kind(e: ViewError) -> Seq<char> {
    match e {
        ViewError::ViewNotFound { .. } => "viewNotFound"@,
        ViewError::InvalidSortCondition { .. } => "invalidSortCondition"@,
        ViewError::TooManySortConditions { .. } => "tooManySortConditions"@,
        ViewError::InvalidFilterOperator { .. } => "invalidFilterOperator"@,
        ViewError::InvalidFilterValue { .. } => "invalidFilterValue"@,
        ViewError::TooManyFilterConditions { .. } => "tooManyFilterConditions"@,
        ViewError::PropertyNotFound { .. } => "propertyNotFound"@,
        ViewError::NoGroupCondition => "noGroupCondition"@,
        ViewError::DuplicateSortProperty { .. } => "duplicateSortProperty"@,
    }
}

/// The kind name of a view error.
pub fn view_kind(e: &ViewError) -> (r: &'static str)
    ensures
        r@ == view_error_kind(*e),
{
    match e {
        ViewError::ViewNotFound { .. } => "viewNotFound",
        ViewError::InvalidSortCondition { .. } => "invalidSortCondition",
        ViewError::TooManySortConditions { .. } => "tooManySortConditions",
        ViewError::InvalidFilterOperator { .. } => "invalidFilterOperator",
        ViewError::InvalidFilterValue { .. } => "invalidFilterValue",
        ViewError::TooManyFilterConditions { .. } => "tooManyFilterConditions",
        ViewError::PropertyNotFound { .. } => "propertyNotFound",
        ViewError::NoGroupCondition => "noGroupCondition",
        ViewError::DuplicateSortProperty { .. } => "duplicateSortProperty",
    }
}

} // verus!
