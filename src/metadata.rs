//! Reading the metadata reply of a collection. What the engine decides
//! from the members it finds is stated exactly in [`metadata_of`].

use vstd::prelude::*;
use crate::json::{JsonField, FieldView, json_member, json_member_of};
use crate::task::Metadata;

verus! {

/// The name a metadata reply gives its collection, or `None` when the reply
/// is malformed: the `id` member must be present and not null, and the
/// `name` member must be a string.
pub open spec fn metadata_of(name: FieldView, id: FieldView) -> Option<Seq<char>> {
    if id is Null {
        None
    } else {
        match name {
            FieldView::Text(s) => Some(s),
            _ => None,
        }
    }
}

/// The name the reply `body` gives its collection, or `None` when it is
/// not JSON or is malformed.
pub open spec fn metadata_in(body: Seq<u8>) -> Option<Seq<char>> {
    let name = json_member(body, None, "name"@);
    let id = json_member(body, None, "id"@);
    if name is Some && id is Some {
        metadata_of(name->0, id->0)
    } else {
        None
    }
}

/// Decides what the `name` and `id` members of a metadata reply make of it.
pub fn metadata_from_fields(name: JsonField, id: JsonField) -> (r: Option<Metadata>)
    ensures
        r is Some <==> metadata_of(name@, id@) is Some,
        r is Some ==> r->0.name@ == metadata_of(name@, id@)->0,
{
    match id {
        JsonField::Null => None,
        _ => match name {
            JsonField::Text(s) => Some(Metadata { name: s }),
            _ => None,
        },
    }
}

/// Reads the metadata reply `body`: the name it gives, or `None` when it is
/// not JSON or is malformed (see [`metadata_of`]).
pub fn read_metadata(body: &[u8]) -> (r: Option<Metadata>)
    ensures
        r is Some <==> metadata_in(body@) is Some,
        r is Some ==> r->0.name@ == metadata_in(body@)->0,
        body@.len() == 0 ==> r is None,
{
    let name = json_member_of(body, None, "name");
    let id = json_member_of(body, None, "id");
    match (name, id) {
        (Some(n), Some(i)) => metadata_from_fields(n, i),
        _ => None,
    }
}

} // verus!
