//! The command line's arguments, as plain values.

use vstd::prelude::*;
use crate::text::same_text;

verus! {

/// The whole command line.
#[derive(Debug)]
pub struct Cli {
    /// The subcommand to run.
    pub subcommand: SubCommand,
    /// A configuration file other than the default one.
    pub config: Option<String>,
    /// Whether to print debugging information.
    pub verbose: Option<bool>,
}

/// Writes a new configuration file.
#[derive(Debug)]
pub struct SetupOptions {
    pub username: Option<String>,
    pub password: Option<String>,
    pub endpoint: Option<String>,
}

/// Logs in with a username and password.
#[derive(Debug)]
pub struct LoginOptions {
    pub username: Option<String>,
    pub password: Option<String>,
    pub endpoint: Option<String>,
}

/// Logs out.
#[derive(Debug)]
pub struct LogoutOptions {}

/// Checks a file before it is uploaded.
#[derive(Debug)]
pub struct VerifyOptions {
    pub file: String,
}

/// Downloads collections by id.
#[derive(Debug)]
pub struct GetOptions {
    pub ids: Vec<String>,
    /// Use the public endpoint, which serves collections one does not own.
    pub public: Option<bool>,
    /// Use both the public and the private endpoint.
    pub both: Option<bool>,
}

/// Lists items, collections or both.
#[derive(Debug)]
pub struct ListOptions {
    /// `ships`, `collections` or `both`; both when absent.
    pub what: Option<String>,
}

/// Fetches an item or collection by id.
#[derive(Debug)]
pub struct FetchOptions {}

/// How a field of a record is edited.
#[derive(Debug)]
pub enum EditOperation {
    Add(EditAddOptions),
    Remove(EditRemoveOptions),
    SetValue(EditSetOptions),
}

/// Adds values to an array field.
#[derive(Debug)]
pub struct EditAddOptions {
    pub key: String,
    pub values: Vec<String>,
}

/// Sets a field; several values are joined.
#[derive(Debug)]
pub struct EditSetOptions {
    pub key: String,
    pub values: Vec<String>,
}

/// Removes values from an array field.
#[derive(Debug)]
pub struct EditRemoveOptions {
    pub key: String,
    pub values: Vec<String>,
}

/// Edits an item or collection by id.
#[derive(Debug)]
pub struct EditOptions {
    /// Skip the confirmation prompt.
    pub yes: Option<bool>,
    pub id: String,
    pub operation: EditOperation,
}

#[derive(Debug)]
pub enum SubCommand {
    Setup(SetupOptions),
    Login(LoginOptions),
    Logout(LogoutOptions),
    Verify(VerifyOptions),
    Get(GetOptions),
    List(ListOptions),
    Fetch(FetchOptions),
    Edit(EditOptions),
}

/// The message given for a listing choice that is not accepted.
pub open spec fn list_choice_error() -> Seq<char> {
    "Must be one of ships, collections, or both"@
}

/// Accepts `ships`, `collections` or `both` as what to list.
pub fn parse_list_what(s: &str) -> (r: Result<String, String>)
    ensures
        (s@ == "ships"@ || s@ == "collections"@ || s@ == "both"@) ==> r is Ok && r->Ok_0@ == s@,
        !(s@ == "ships"@ || s@ == "collections"@ || s@ == "both"@) ==> r is Err && r->Err_0@
            == list_choice_error(),
{
    if same_text(s, "ships") || same_text(s, "collections") || same_text(s, "both") {
        Ok(s.to_owned())
    } else {
        Err("Must be one of ships, collections, or both".to_owned())
    }
}

/// What the list command prints.
#[derive(Debug, Clone, Copy, PartialEq, Eq, Structural)]
pub enum ListChoice {
    /// The whole user record.
    Everything,
    Ships,
    Collections,
}

/// The message given for a listing that cannot be printed.
pub open spec fn list_argument_error() -> Seq<char> {
    "Invalid argument. Please use 'ships' or 'collections'"@
}

/// What to list for the command's argument: everything when it is absent,
/// items for `ships`, collections for `collections`; anything else is
/// refused.
pub fn list_choice(what: Option<&str>) -> (r: Result<ListChoice, String>)
    ensures
        what is None ==> r == Ok::<ListChoice, String>(ListChoice::Everything),
        what is Some && what->0@ == "ships"@ ==> r == Ok::<ListChoice, String>(ListChoice::Ships),
        what is Some && what->0@ == "collections"@ ==> r == Ok::<ListChoice, String>(
            ListChoice::Collections,
        ),
        what is Some && what->0@ != "ships"@ && what->0@ != "collections"@ ==> r is Err
            && r->Err_0@ == list_argument_error(),
{
    proof {
        reveal_strlit("ships");
        reveal_strlit("collections");
        assert("ships"@.len() != "collections"@.len());
    }
    match what {
        None => Ok(ListChoice::Everything),
        Some(w) => {
            if same_text(w, "ships") {
                Ok(ListChoice::Ships)
            } else if same_text(w, "collections") {
                Ok(ListChoice::Collections)
            } else {
                Err("Invalid argument. Please use 'ships' or 'collections'".to_owned())
            }
        },
    }
}

} // verus!
