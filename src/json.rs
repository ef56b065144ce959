//! Reading members of JSON replies of the service through serde_json.

use vstd::prelude::*;

verus! {

/// What a JSON member is, as far as the engine cares.
#[derive(Debug)]
pub enum JsonField {
    /// `null`; also what a missing member reads as.
    Null,
    /// A string.
    Text(String),
    /// An integer that fits an `i64`.
    Integer(i64),
    /// Any other number, a boolean, an array or an object.
    Other,
}

/// The mathematical value of a [`JsonField`].
pub enum FieldView {
    Null,
    Text(Seq<char>),
    Integer(i64),
    Other,
}

impl View for JsonField {
    type V = FieldView;

    open spec fn view(&self) -> FieldView {
        match self {
            JsonField::Null => FieldView::Null,
            JsonField::Text(s) => FieldView::Text(s@),
            JsonField::Integer(i) => FieldView::Integer(*i),
            JsonField::Other => FieldView::Other,
        }
    }
}

/// What `body`, parsed as JSON, holds under `key`, inside its member
/// `within` when one is given; `None` when `body` is not JSON.
pub uninterp spec fn json_member(body: Seq<u8>, within: Option<Seq<char>>, key: Seq<char>) -> Option<
    FieldView,
>;

/// The view of an optional member.
pub open spec fn field_view(f: Option<JsonField>) -> Option<FieldView> {
    match f {
        Some(x) => Some(x@),
        None => None,
    }
}

/// The view of an optional key.
pub open spec fn key_view(k: Option<&str>) -> Option<Seq<char>> {
    match k {
        Some(s) => Some(s@),
        None => None,
    }
}

/// Relies on serde_json::from_slice, which parses `body` as one JSON value
/// and depends on `body` alone (an empty body is not JSON), and on
/// serde_json's indexing of a Value by key, which reads `null` for a
/// missing member or a value that is not an object.
#[verifier::external_body]
pub(crate) fn json_member_of(body: &[u8], within: Option<&str>, key: &str) -> (r: Option<
    JsonField,
>)
    ensures
        field_view(r) == json_member(body@, key_view(within), key@),
        body@.len() == 0 ==> r is None,
{
    let v = serde_json::from_slice::<serde_json::Value>(body).ok()?;
    let found = match within {
        Some(w) => &v[w][key],
        None => &v[key],
    };
    Some(match found {
        serde_json::Value::Null => JsonField::Null,
        serde_json::Value::String(s) => JsonField::Text(s.clone()),
        other => match other.as_i64() {
            Some(i) => JsonField::Integer(i),
            None => JsonField::Other,
        },
    })
}

} // verus!
