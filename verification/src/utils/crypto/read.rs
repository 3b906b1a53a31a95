//! What claims are read as.

use vstd::prelude::*;

#[allow(unused_imports)]
use crate::json::text_member;
use crate::json::{Json, JsonNumber, JsonView};
use crate::utils::crypto::{Claims, ClaimsError, JwtSub};
#[allow(unused_imports)]
use crate::utils::crypto::{claims_from_json, JwtSubView};

verus! {

/// An object writes a user by the three members of one.
pub open spec fn writes_user(v: JsonView, id: Seq<char>, name: Seq<char>, google: bool) -> bool {
    &&& v is Object
    &&& v.member("_id"@) == Some(JsonView::Text(id))
    &&& v.member("name"@) == Some(JsonView::Text(name))
    &&& v.member("googleAccount"@) == Some(JsonView::Bool(google))
}

/// Claims whose subject is a text are for that subject, beside which the user
/// stands; they say when they expire, and who made them.
pub proof fn law_claims_are_read(
    v: Json,
    sub: Seq<char>,
    user: JsonView,
    id: Seq<char>,
    name: Seq<char>,
    google: bool,
    n: JsonNumber,
    exp: u64,
    iss: Seq<char>,
    r: Result<Claims, ClaimsError>,
)
    requires
        call_ensures(claims_from_json, (&v,), r),
        v@ is Object,
        sub.len() > 0,
        v@.member("sub"@) == Some(JsonView::Text(sub)),
        v@.member("user"@) == Some(user),
        writes_user(user, id, name, google),
        v@.member("exp"@) == Some(JsonView::Number(n)),
        n.unsigned == Some(exp),
        text_member(v@, "iss"@) == Some(iss),
    ensures
        r matches Ok(c) && c@.sub == sub && c@.exp == exp && c@.iss == iss && (c@.user matches Some(u)
            && u._id == id && u.name == name && u.googleAccount == google),
{
}

/// Claims whose subject is the user are for that user.
pub proof fn law_older_claims_are_read(
    v: Json,
    user: JsonView,
    id: Seq<char>,
    name: Seq<char>,
    google: bool,
    r: Result<Claims, ClaimsError>,
)
    requires
        call_ensures(claims_from_json, (&v,), r),
        v@ is Object,
        id.len() > 0,
        v@.member("sub"@) == Some(user) || (v@.member("sub"@) is None && v@.member("user"@) == Some(
            user,
        )),
        writes_user(user, id, name, google),
    ensures
        r matches Ok(c) && c@.sub == id && (c@.user matches Some(u) && u._id == id && u.name == name
            && u.googleAccount == google),
{
}

/// Claims that tell only the identifier of their subject are for a user without
/// a name, of no Google account. They expire at once where they do not say when.
pub proof fn law_bare_claims_are_read(
    v: Json,
    sub: Seq<char>,
    r: Result<Claims, ClaimsError>,
    s: JwtSub,
)
    requires
        call_ensures(claims_from_json, (&v,), r),
        v@ is Object,
        sub.len() > 0,
        v@.member("sub"@) == Some(JsonView::Text(sub)),
        v@.member("user"@) is None,
        r matches Ok(c) ==> call_ensures(Claims::jwt_sub, (&c,), s),
    ensures
        r matches Ok(c) && c@.sub == sub && c@.user is None && (v@.member("exp"@) is None ==> c@.exp
            == 0),
        s@ == (JwtSubView { _id: sub, name: Seq::empty(), googleAccount: false }),
{
}

/// What names no subject is no claims.
pub proof fn law_claims_need_a_subject(v: Json, r: Result<Claims, ClaimsError>)
    requires
        call_ensures(claims_from_json, (&v,), r),
        !(v@ is Object) || (v@.member("user"@) is None && (match v@.member("sub"@) {
            Some(JsonView::Text(s)) => s.len() == 0,
            Some(JsonView::Object(_)) => false,
            _ => true,
        })),
    ensures
        r is Err,
{
}

} // verus!
