use vstd::prelude::*;

use crate::models::Claims;
use crate::reply::{FORBIDDEN, UNAUTHORIZED};
use crate::user_role::UserRole;

verus! {

/// The scheme that must open an `Authorization` header.
pub open spec fn bearer_prefix() -> Seq<char> {
    "Bearer "@
}

/// The token that an `Authorization` header value carries: what follows `"Bearer "`,
/// provided something does.
pub open spec fn bearer_of(value: Seq<char>) -> Option<Seq<char>> {
    if value.len() > bearer_prefix().len() && value.subrange(0, bearer_prefix().len() as int)
        == bearer_prefix() {
        Some(value.subrange(bearer_prefix().len() as int, value.len() as int))
    } else {
        None
    }
}

/// The bearer token of a request, given its `Authorization` header (absent when the request has
/// none or its value is not text); a request without one is answered `401 Unauthorized`.
pub fn bearer_token<'a>(authorization: Option<&'a str>) -> (r: Result<&'a str, u16>)
    ensures
        match authorization {
            None => r == Err::<&str, u16>(UNAUTHORIZED),
            Some(value) => match bearer_of(value@) {
                Some(token) => r matches Ok(t) && t@ == token,
                None => r == Err::<&str, u16>(UNAUTHORIZED),
            },
        },
{
    let value = match authorization {
        Some(value) => value,
        None => return Err(UNAUTHORIZED),
    };
    let prefix = "Bearer ";
    proof {
        reveal_strlit("Bearer ");
    }
    let n: usize = value.unicode_len();
    if n <= 7 {
        return Err(UNAUTHORIZED);
    }
    let mut i: usize = 0;
    while i < 7
        invariant
            authorization == Some(value),
            n == value@.len(),
            7 < n,
            prefix@ == bearer_prefix(),
            prefix@.len() == 7,
            i <= 7,
            forall|j: int| 0 <= j < i ==> value@[j] == prefix@[j],
        decreases 7 - i,
    {
        if value.get_char(i) != prefix.get_char(i) {
            assert(value@.subrange(0, 7)[i as int] != bearer_prefix()[i as int]);
            return Err(UNAUTHORIZED);
        }
        i = i + 1;
    }
    assert(value@.subrange(0, 7) =~= bearer_prefix());
    Ok(value.substring_char(7, n))
}

/// Lets a request through to the admin routes only when it carries claims, and only when
/// they are an admin's: `401 Unauthorized` without claims, `403 Forbidden` for anyone else.
pub fn admin_request(claims: Option<&Claims>) -> (r: Result<(), u16>)
    ensures
        match claims {
            None => r == Err::<(), u16>(UNAUTHORIZED),
            Some(c) => if c.role == UserRole::Admin {
                r == Ok::<(), u16>(())
            } else {
                r == Err::<(), u16>(FORBIDDEN)
            },
        },
{
    match claims {
        None => Err(UNAUTHORIZED),
        Some(c) => match c.role {
            UserRole::Admin => Ok(()),
            UserRole::User => Err(FORBIDDEN),
        },
    }
}

} // verus!
