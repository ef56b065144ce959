//! The login session: the credential tokens and when they expire. The
//! current time is always handed in by the caller.

use vstd::prelude::*;
use crate::json::{JsonField, FieldView, json_member, json_member_of};

verus! {

#[derive(Debug)]
pub struct Session {
    pub id_token: String,
    pub user_id: String,
    pub refresh_token: String,
    pub expiration_unix: i64,
}

/// What a login reply grants.
#[derive(Debug)]
pub struct LoginReply {
    /// The identity token; empty when the reply holds none as a string.
    pub id_token: String,
    /// The refresh token; empty when the reply holds none as a string.
    pub refresh_token: String,
    /// How many seconds the tokens last, when the reply says so as an integer.
    pub expires_in: Option<i64>,
}

/// The text of a string member; empty for anything else.
pub open spec fn text_or_empty(f: FieldView) -> Seq<char> {
    match f {
        FieldView::Text(s) => s,
        _ => Seq::empty(),
    }
}

/// The value of an integer member.
pub open spec fn integer_of(f: FieldView) -> Option<i64> {
    match f {
        FieldView::Integer(i) => Some(i),
        _ => None,
    }
}

/// The member `key` of the `AuthenticationResult` of a login reply.
pub open spec fn granted(body: Seq<u8>, key: Seq<char>) -> Option<FieldView> {
    json_member(body, Some("AuthenticationResult"@), key)
}

fn text_of(f: JsonField) -> (r: String)
    ensures
        r@ == text_or_empty(f@),
{
    match f {
        JsonField::Text(s) => s,
        _ => String::new(),
    }
}

/// Reads a login reply: the `IdToken`, `RefreshToken` and `ExpiresIn`
/// members of its `AuthenticationResult`. `None` when the body is not JSON.
pub fn read_login_reply(body: &[u8]) -> (r: Option<LoginReply>)
    ensures
        r is Some <==> (granted(body@, "IdToken"@) is Some && granted(body@, "RefreshToken"@) is Some
            && granted(body@, "ExpiresIn"@) is Some),
        r is Some ==> {
            let g = r->0;
            &&& g.id_token@ == text_or_empty(granted(body@, "IdToken"@)->0)
            &&& g.refresh_token@ == text_or_empty(granted(body@, "RefreshToken"@)->0)
            &&& g.expires_in == integer_of(granted(body@, "ExpiresIn"@)->0)
        },
        body@.len() == 0 ==> r is None,
{
    let id = json_member_of(body, Some("AuthenticationResult"), "IdToken");
    let refresh = json_member_of(body, Some("AuthenticationResult"), "RefreshToken");
    let expires = json_member_of(body, Some("AuthenticationResult"), "ExpiresIn");
    match (id, refresh, expires) {
        (Some(i), Some(f), Some(e)) => {
            let expires_in = match e {
                JsonField::Integer(n) => Some(n),
                _ => None,
            };
            Some(LoginReply { id_token: text_of(i), refresh_token: text_of(f), expires_in })
        },
        _ => None,
    }
}

/// `x` clamped to the range of an `i64`.
pub open spec fn saturated(x: int) -> int {
    if x > i64::MAX {
        i64::MAX as int
    } else if x < i64::MIN {
        i64::MIN as int
    } else {
        x
    }
}

/// When a session granted at `now` for `expires_in` seconds expires: at
/// once when no duration was given.
pub open spec fn expiry(now: int, expires_in: Option<i64>) -> int {
    saturated(
        now + match expires_in {
            Some(d) => d as int,
            None => 0,
        },
    )
}

impl Session {
    /// An empty session that expired one second before `now`.
    pub fn new(now: i64) -> (r: Session)
        ensures
            r.id_token@ == Seq::<char>::empty(),
            r.user_id@ == Seq::<char>::empty(),
            r.refresh_token@ == Seq::<char>::empty(),
            r.expiration_unix == saturated(now - 1),
    {
        Session {
            id_token: String::new(),
            user_id: String::new(),
            refresh_token: String::new(),
            expiration_unix: if now > i64::MIN {
                now - 1
            } else {
                now
            },
        }
    }

    /// Has the session expired at `now`?
    pub fn expired(&self, now: i64) -> (r: bool)
        ensures
            r == (now >= self.expiration_unix),
    {
        now >= self.expiration_unix
    }

    /// A session for `user_id` that a login reply granted at `now`: it
    /// expires `expires_in` seconds later (at once when the reply gave no
    /// duration), saturating at the ends of what an `i64` holds.
    pub fn logged_in(
        user_id: String,
        id_token: String,
        refresh_token: String,
        expires_in: Option<i64>,
        now: i64,
    ) -> (r: Session)
        ensures
            r.user_id@ == user_id@,
            r.id_token@ == id_token@,
            r.refresh_token@ == refresh_token@,
            r.expiration_unix == expiry(now as int, expires_in),
    {
        let d = match expires_in {
            Some(d) => d,
            None => 0,
        };
        let sum: i128 = now as i128 + d as i128;
        let expiration_unix: i64 = if sum > i64::MAX as i128 {
            i64::MAX
        } else if sum < i64::MIN as i128 {
            i64::MIN
        } else {
            sum as i64
        };
        Session { id_token, user_id, refresh_token, expiration_unix }
    }
}

} // verus!
