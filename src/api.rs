//! The service's records and the requests made of it: where each resource
//! lives and the credential sent along.

use vstd::prelude::*;
use crate::config::Config;
use crate::session::Session;
use crate::text::{strip_quotes, without_quotes};

verus! {

/// A handle on the service: the configuration and session requests use.
#[derive(Debug)]
pub struct Flotilla<'a> {
    pub config: &'a Config,
    pub session: &'a Session,
}

/// What the service keeps for a user.
#[derive(Debug)]
pub struct UserData {
    pub ships: Vec<Ship>,
    pub collections: Vec<Collection>,
}

/// An item: an individually downloadable record.
#[derive(Debug)]
pub struct Ship {
    pub id: String,
    pub name: String,
    pub file_name: String,
    pub short_id: String,
    pub downloads: u32,
    pub uploaded: u64,
    pub num_collections: u32,
    pub download_url: String,
}

/// A named grouping of items, downloadable as one archive.
#[derive(Debug)]
pub struct Collection {
    pub id: String,
    pub name: String,
    pub description: String,
    pub public_url: String,
    pub ship_ids: Vec<String>,
    pub icon: String,
    pub color: String,
    pub is_public: bool,
    pub download_url: String,
    pub owner: String,
}

/// The kind of resource an identifier names, told by its length.
#[derive(Debug, Clone, Copy, PartialEq, Eq, Structural)]
pub enum IdType {
    Collection,
    Ship,
}

/// The length of an identifier in bytes.
pub open spec fn id_byte_len(id: Seq<char>) -> nat {
    vstd::utf8::encode_utf8(id).len()
}

/// The value of the `Authorization` header for a session token.
pub open spec fn bearer_of(id_token: Seq<char>) -> Seq<char> {
    "Bearer "@ + without_quotes(id_token)
}

/// The URL of a collection's metadata.
pub open spec fn collection_url_of(endpoint: Seq<char>, id: Seq<char>) -> Seq<char> {
    endpoint + "/shipyard/collection/"@ + id
}

/// The URL of a public collection's metadata, which needs no ownership.
pub open spec fn public_collection_url_of(endpoint: Seq<char>, id: Seq<char>) -> Seq<char> {
    endpoint + "/shipyard/collection/public/"@ + id
}

/// The URL of a collection's archive.
pub open spec fn collection_download_url_of(endpoint: Seq<char>, id: Seq<char>) -> Seq<char> {
    endpoint + "/shipyard/collection/download/"@ + id
}

/// The URL of an item.
pub open spec fn ship_url_of(endpoint: Seq<char>, id: Seq<char>) -> Seq<char> {
    endpoint + "/shipyard/ship/"@ + id
}

/// Tells a collection id (32 bytes) from an item id (64 bytes).
pub fn get_id_type(id: &String) -> (r: IdType)
    requires
        id_byte_len(id@) == 32 || id_byte_len(id@) == 64,
    ensures
        r == (if id_byte_len(id@) == 32 {
            IdType::Collection
        } else {
            IdType::Ship
        }),
{
    if id.as_str().as_bytes().len() == 32 {
        IdType::Collection
    } else {
        IdType::Ship
    }
}

/// The kind of resource an identifier names, or `None` when its length
/// fits neither kind.
pub fn id_kind(id: &String) -> (r: Option<IdType>)
    ensures
        r is None <==> !(id_byte_len(id@) == 32 || id_byte_len(id@) == 64),
        r is Some ==> r->0 == (if id_byte_len(id@) == 32 {
            IdType::Collection
        } else {
            IdType::Ship
        }),
{
    let n = id.as_str().as_bytes().len();
    if n == 32 || n == 64 {
        Some(get_id_type(id))
    } else {
        None
    }
}

fn joined(base: &str, middle: &str, id: &str) -> (r: String)
    ensures
        r@ == base@ + middle@ + id@,
{
    let mut out = base.to_owned();
    out.append(middle);
    out.append(id);
    out
}

/// The URL of a collection's metadata.
pub fn collection_url(endpoint: &str, id: &str) -> (r: String)
    ensures
        r@ == collection_url_of(endpoint@, id@),
{
    joined(endpoint, "/shipyard/collection/", id)
}

/// The URL of a public collection's metadata.
pub fn public_collection_url(endpoint: &str, id: &str) -> (r: String)
    ensures
        r@ == public_collection_url_of(endpoint@, id@),
{
    joined(endpoint, "/shipyard/collection/public/", id)
}

/// The URL of a collection's archive.
pub fn collection_download_url(endpoint: &str, id: &str) -> (r: String)
    ensures
        r@ == collection_download_url_of(endpoint@, id@),
{
    joined(endpoint, "/shipyard/collection/download/", id)
}

/// The value of the `Authorization` header for a session token: quotes
/// that the token was stored with are dropped.
pub fn bearer(id_token: &str) -> (r: String)
    ensures
        r@ == bearer_of(id_token@),
{
    let mut out = "Bearer ".to_owned();
    let stripped = strip_quotes(id_token);
    out.append(stripped.as_str());
    out
}

impl<'a> Flotilla<'a> {
    pub fn new(config: &'a Config, session: &'a Session) -> (r: Self)
        ensures
            r.config == config,
            r.session == session,
    {
        Flotilla { config, session }
    }

    /// The `Authorization` header value of this session.
    pub fn token_value(&self) -> (r: String)
        ensures
            r@ == bearer_of(self.session.id_token@),
    {
        bearer(self.session.id_token.as_str())
    }

    /// The URL of the signed-in user's record.
    pub fn user_url(&self) -> (r: String)
        ensures
            r@ == self.config.endpoint@ + "/user"@,
    {
        let mut out = self.config.endpoint.clone();
        out.append("/user");
        out
    }

    /// The URL a login is posted to.
    pub fn login_url(&self) -> (r: String)
        ensures
            r@ == self.config.endpoint@ + "/user/quick_login"@,
    {
        let mut out = self.config.endpoint.clone();
        out.append("/user/quick_login");
        out
    }

    /// The URL of collection `id`.
    pub fn collection_url(&self, id: &str) -> (r: String)
        ensures
            r@ == collection_url_of(self.config.endpoint@, id@),
    {
        collection_url(self.config.endpoint.as_str(), id)
    }

    /// The public URL of collection `id`.
    pub fn public_collection_url(&self, id: &str) -> (r: String)
        ensures
            r@ == public_collection_url_of(self.config.endpoint@, id@),
    {
        public_collection_url(self.config.endpoint.as_str(), id)
    }

    /// The URL of item `id`.
    pub fn ship_url(&self, id: &str) -> (r: String)
        ensures
            r@ == ship_url_of(self.config.endpoint@, id@),
    {
        joined(self.config.endpoint.as_str(), "/shipyard/ship/", id)
    }
}

} // verus!
