//! The families of declared column types.

use crate::text::{ascii_lowercase, folded_chars, same_text};
use vstd::prelude::*;

verus! {

/// The family a declared column type belongs to.  It alone decides how the
/// cells of the column are decoded and rendered.
#[derive(Clone, Copy, Debug, PartialEq, Eq, Structural)]
pub enum TypeCategory {
    /// Whole numbers, decoded as signed 64-bit integers.
    Integer,
    /// Fractional numbers, decoded as 64-bit floating point.
    Float,
    /// Truth values.
    Boolean,
    /// Character data, passed through unchanged.
    Text,
    /// JSON documents.
    Json,
    /// Dates with a time of day, without a time zone.
    DateTime,
    /// Every type tag outside the families above.
    Unsupported,
}

/// The family of a type tag.  Letter case is not significant; anything else
/// is, so a tag with surrounding blanks or a length suffix is `Unsupported`.
pub open spec fn category_of(tag: Seq<char>) -> TypeCategory {
    let t = ascii_lowercase(tag);
    if t == "int"@ || t == "integer"@ || t == "bigint"@ || t == "smallint"@ {
        TypeCategory::Integer
    } else if t == "float"@ || t == "double"@ || t == "decimal"@ {
        TypeCategory::Float
    } else if t == "bool"@ || t == "boolean"@ {
        TypeCategory::Boolean
    } else if t == "text"@ || t == "varchar"@ || t == "char"@ || t == "longtext"@ {
        TypeCategory::Text
    } else if t == "json"@ {
        TypeCategory::Json
    } else if t == "datetime"@ || t == "timestamp"@ {
        TypeCategory::DateTime
    } else {
        TypeCategory::Unsupported
    }
}

/// Finds the family of a type tag as reported by the database driver.
pub fn classify(tag: &str) -> (category: TypeCategory)
    ensures
        category == category_of(tag@),
{
    let t = folded_chars(tag);
    if same_text(&t, "int") || same_text(&t, "integer") || same_text(&t, "bigint") || same_text(
        &t,
        "smallint",
    ) {
        TypeCategory::Integer
    } else if same_text(&t, "float") || same_text(&t, "double") || same_text(&t, "decimal") {
        TypeCategory::Float
    } else if same_text(&t, "bool") || same_text(&t, "boolean") {
        TypeCategory::Boolean
    } else if same_text(&t, "text") || same_text(&t, "varchar") || same_text(&t, "char")
        || same_text(&t, "longtext") {
        TypeCategory::Text
    } else if same_text(&t, "json") {
        TypeCategory::Json
    } else if same_text(&t, "datetime") || same_text(&t, "timestamp") {
        TypeCategory::DateTime
    } else {
        TypeCategory::Unsupported
    }
}

} // verus!
