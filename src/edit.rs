//! What an edit of a record's field does, decided from the kind of value
//! the field holds. Applying the decision to the JSON record is left to
//! the caller.

use vstd::prelude::*;
use crate::interface::EditOperation;
use crate::text::same_text;

verus! {

/// The kind of value a field holds.
#[derive(Debug, Clone, Copy, PartialEq, Eq, Structural)]
pub enum FieldKind {
    Array,
    Boolean,
    Number,
    /// A string, `null`, an object, or a missing field.
    Other,
}

/// What an edit does to the field.
#[derive(Debug)]
pub enum EditPlan {
    /// Append each value, as a string, to the array.
    Append(Vec<String>),
    /// Drop every element of the array equal to one of the values.
    Remove(Vec<String>),
    /// Replace the field with the values, as an array of strings.
    SetArray(Vec<String>),
    /// Replace the field with a boolean.
    SetBool(bool),
    /// Replace the field with the number this text spells.
    SetNumber(String),
    /// Replace the field with a string.
    SetText(String),
}

/// The message for adding to a field that is not an array.
pub open spec fn add_error() -> Seq<char> {
    "Cannot add to non-array field"@
}

/// The message for removing from a field that is not an array.
pub open spec fn remove_error() -> Seq<char> {
    "Cannot remove from non-array field"@
}

/// The message for setting a field with no value given.
pub open spec fn missing_value_error() -> Seq<char> {
    "A value to set is needed"@
}

/// The message for setting a boolean field with other text.
pub open spec fn bool_error() -> Seq<char> {
    "The field holds a boolean: give true or false"@
}

/// The boolean a text spells, as `str::parse` reads it: exactly `true` or
/// `false`.
pub open spec fn bool_of(s: Seq<char>) -> Option<bool> {
    if s == "true"@ {
        Some(true)
    } else if s == "false"@ {
        Some(false)
    } else {
        None
    }
}

fn parse_bool(s: &str) -> (r: Option<bool>)
    ensures
        r == bool_of(s@),
{
    if same_text(s, "true") {
        Some(true)
    } else if same_text(s, "false") {
        Some(false)
    } else {
        None
    }
}

/// Decides what `op` does to a field of kind `kind`. Adding and removing
/// need an array. Setting an array replaces it with all values; setting
/// anything else uses the first value, read as a boolean for a boolean
/// field, as a number for a number field, and as text otherwise.
pub fn plan_edit(kind: FieldKind, op: EditOperation) -> (r: Result<EditPlan, String>)
    ensures
        match op {
            EditOperation::Add(x) => if kind == FieldKind::Array {
                r matches Ok(EditPlan::Append(v)) && v@ == x.values@
            } else {
                r matches Err(e) && e@ == add_error()
            },
            EditOperation::Remove(x) => if kind == FieldKind::Array {
                r matches Ok(EditPlan::Remove(v)) && v@ == x.values@
            } else {
                r matches Err(e) && e@ == remove_error()
            },
            EditOperation::SetValue(x) => if kind == FieldKind::Array {
                r matches Ok(EditPlan::SetArray(v)) && v@ == x.values@
            } else if x.values@.len() == 0 {
                r matches Err(e) && e@ == missing_value_error()
            } else if kind == FieldKind::Boolean {
                match bool_of(x.values@[0]@) {
                    Some(b) => r matches Ok(EditPlan::SetBool(c)) && c == b,
                    None => r matches Err(e) && e@ == bool_error(),
                }
            } else if kind == FieldKind::Number {
                r matches Ok(EditPlan::SetNumber(t)) && t@ == x.values@[0]@
            } else {
                r matches Ok(EditPlan::SetText(t)) && t@ == x.values@[0]@
            },
        },
{
    match op {
        EditOperation::Add(x) => if kind == FieldKind::Array {
            Ok(EditPlan::Append(x.values))
        } else {
            Err("Cannot add to non-array field".to_owned())
        },
        EditOperation::Remove(x) => if kind == FieldKind::Array {
            Ok(EditPlan::Remove(x.values))
        } else {
            Err("Cannot remove from non-array field".to_owned())
        },
        EditOperation::SetValue(x) => {
            if kind == FieldKind::Array {
                Ok(EditPlan::SetArray(x.values))
            } else if x.values.len() == 0 {
                Err("A value to set is needed".to_owned())
            } else {
                let first = x.values[0].clone();
                if kind == FieldKind::Boolean {
                    match parse_bool(first.as_str()) {
                        Some(b) => Ok(EditPlan::SetBool(b)),
                        None => Err("The field holds a boolean: give true or false".to_owned()),
                    }
                } else if kind == FieldKind::Number {
                    Ok(EditPlan::SetNumber(first))
                } else {
                    Ok(EditPlan::SetText(first))
                }
            }
        },
    }
}

} // verus!
