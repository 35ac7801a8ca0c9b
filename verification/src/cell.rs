//! Rendering one cell: from the column's type family and the raw value to
//! the text that stands in the CSV file.

use crate::calendar::{display_datetime, CivilTime};
use crate::category::{category_of, classify, TypeCategory};
use crate::json::{json_compact, reformat_json};
use crate::text::{decimal_int, render_i64};
use vstd::prelude::*;
use vstd::string::*;

verus! {

/// What the database driver handed over for one cell, decoded towards the
/// target of the column's type family.
#[derive(Clone, Debug, PartialEq, Eq)]
pub enum RawValue {
    /// No usable value: SQL NULL, a value of another type than the column
    /// declares, or an error of the driver.
    Null,
    /// A whole number.
    Integer(i64),
    /// A fractional number, in the decimal form in which it is to appear.
    Float(String),
    /// A truth value.
    Boolean(bool),
    /// Character data.
    Text(String),
    /// The source text of a JSON document, as stored.
    Json(String),
    /// A date with a time of day, field by field.
    DateTime(CivilTime),
}

/// The mathematical content of a [`RawValue`].
pub enum ValueModel {
    Null,
    Integer(int),
    Float(Seq<char>),
    Boolean(bool),
    Text(Seq<char>),
    Json(Seq<char>),
    DateTime(CivilTime),
}

impl View for RawValue {
    type V = ValueModel;

    open spec fn view(&self) -> ValueModel {
        match self {
            RawValue::Null => ValueModel::Null,
            RawValue::Integer(v) => ValueModel::Integer(*v as int),
            RawValue::Float(s) => ValueModel::Float(s@),
            RawValue::Boolean(b) => ValueModel::Boolean(*b),
            RawValue::Text(s) => ValueModel::Text(s@),
            RawValue::Json(s) => ValueModel::Json(s@),
            RawValue::DateTime(t) => ValueModel::DateTime(*t),
        }
    }
}

impl DeepView for RawValue {
    type V = ValueModel;

    open spec fn deep_view(&self) -> ValueModel {
        self@
    }
}

/// The text that stands for a cell of an unsupported column.
pub open spec fn unsupported_text() -> Seq<char> {
    "[unsupported]"@
}

/// The text of a cell whose decoding succeeded, or the empty text that
/// stands in for a cell that could not be decoded.
pub open spec fn text_or_empty(decoded: Option<Seq<char>>) -> Seq<char> {
    match decoded {
        Some(t) => t,
        None => Seq::empty(),
    }
}

/// Decoding a raw value towards the target of a type family: the rendered
/// text where the value is of that family and well-formed, `None` where it
/// is not.  `Unsupported` has no target and is not decoded at all.
pub open spec fn decoded_text(category: TypeCategory, value: ValueModel) -> Option<Seq<char>> {
    match (category, value) {
        (TypeCategory::Integer, ValueModel::Integer(v)) => Some(decimal_int(v)),
        (TypeCategory::Float, ValueModel::Float(s)) => Some(s),
        (TypeCategory::Boolean, ValueModel::Boolean(b)) => Some(
            if b {
                "true"@
            } else {
                "false"@
            },
        ),
        (TypeCategory::Text, ValueModel::Text(s)) => Some(s),
        (TypeCategory::Json, ValueModel::Json(source)) => json_compact(source),
        (TypeCategory::DateTime, ValueModel::DateTime(t)) => t.text(),
        _ => None,
    }
}

/// The text of one cell.  A column of an unsupported type shows a fixed
/// marker in every row; a cell that cannot be decoded is empty.
pub open spec fn cell_text(category: TypeCategory, value: ValueModel) -> Seq<char> {
    if category == TypeCategory::Unsupported {
        unsupported_text()
    } else {
        text_or_empty(decoded_text(category, value))
    }
}

/// Applies the failure policy for single cells: a failed decoding is not an
/// error of the row or of the table, it leaves the cell empty.
pub fn recover(decoded: Option<String>) -> (s: String)
    ensures
        s@ == text_or_empty(
            match decoded {
                Some(t) => Some(t@),
                None => None,
            },
        ),
{
    match decoded {
        Some(t) => t,
        None => String::new(),
    }
}

/// Decodes `raw` towards the target of `category` and renders it.
pub fn decode(category: TypeCategory, raw: &RawValue) -> (r: Option<String>)
    ensures
        r matches Some(t) ==> decoded_text(category, raw@) == Some(t@),
        r is None ==> decoded_text(category, raw@) is None,
{
    match (category, raw) {
        (TypeCategory::Integer, RawValue::Integer(v)) => Some(render_i64(*v)),
        (TypeCategory::Float, RawValue::Float(s)) => Some(s.clone()),
        (TypeCategory::Boolean, RawValue::Boolean(b)) => {
            if *b {
                Some(String::from_str("true"))
            } else {
                Some(String::from_str("false"))
            }
        },
        (TypeCategory::Text, RawValue::Text(s)) => Some(s.clone()),
        (TypeCategory::Json, RawValue::Json(source)) => reformat_json(source.as_str()),
        (TypeCategory::DateTime, RawValue::DateTime(t)) => display_datetime(t),
        _ => None,
    }
}

/// Renders one cell of a column of the given family.
pub fn serialize_value(category: TypeCategory, raw: &RawValue) -> (s: String)
    ensures
        s@ == cell_text(category, raw@),
{
    match category {
        TypeCategory::Unsupported => String::from_str("[unsupported]"),
        _ => recover(decode(category, raw)),
    }
}

/// Renders one cell of a column with the given type tag.
pub fn serialize_cell(tag: &str, raw: &RawValue) -> (s: String)
    ensures
        s@ == cell_text(category_of(tag@), raw@),
{
    serialize_value(classify(tag), raw)
}

/// Under each supported family a value of that family is rendered in the
/// family's form: an integer as its decimal numeral, a truth value as
/// `true` or `false`, text and fractional numbers as they came, a JSON
/// document in compact form and a date-time in display form, the last two
/// where the value is well-formed.
pub proof fn lemma_supported_forms(tag: Seq<char>, value: ValueModel)
    ensures
        category_of(tag) == TypeCategory::Integer ==> (value matches ValueModel::Integer(v)
            ==> cell_text(category_of(tag), value) == decimal_int(v)),
        category_of(tag) == TypeCategory::Boolean ==> (value matches ValueModel::Boolean(b)
            ==> cell_text(category_of(tag), value) == if b {
            "true"@
        } else {
            "false"@
        }),
        category_of(tag) == TypeCategory::Text ==> (value matches ValueModel::Text(s)
            ==> cell_text(category_of(tag), value) == s),
        category_of(tag) == TypeCategory::Float ==> (value matches ValueModel::Float(s)
            ==> cell_text(category_of(tag), value) == s),
        category_of(tag) == TypeCategory::Json ==> (value matches ValueModel::Json(source)
            ==> (json_compact(source) matches Some(t) ==> cell_text(category_of(tag), value) == t)),
        category_of(tag) == TypeCategory::DateTime ==> (value matches ValueModel::DateTime(t)
            ==> (t.text() matches Some(s) ==> cell_text(category_of(tag), value) == s)),
{
}

/// A cell of a supported column whose value cannot be decoded is empty.
pub proof fn lemma_failed_cell_is_empty(tag: Seq<char>, value: ValueModel)
    requires
        category_of(tag) != TypeCategory::Unsupported,
        decoded_text(category_of(tag), value) is None,
    ensures
        cell_text(category_of(tag), value) == Seq::<char>::empty(),
{
}

/// A column of an unsupported type shows the marker whatever the value is.
pub proof fn lemma_unsupported_cell(tag: Seq<char>, value: ValueModel)
    requires
        category_of(tag) == TypeCategory::Unsupported,
    ensures
        cell_text(category_of(tag), value) == unsupported_text(),
{
}

} // verus!
