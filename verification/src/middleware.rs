//! Who may reach the protected endpoints: the holders of a live session,
//! shown as `Authorization: Bearer <token>`.
use vstd::prelude::*;
use vstd::string::*;

use crate::models::project::opt_view;

verus! {

/// The body of a refusal to authenticate.
#[derive(Debug, Clone, PartialEq, Eq)]
pub struct AuthError {
    pub error: String,
}

/// What follows `prefix` in `s`, when `s` starts with it.
pub open spec fn strip_prefix_spec(s: Seq<char>, prefix: Seq<char>) -> Option<Seq<char>> {
    if prefix.len() <= s.len() && s.take(prefix.len() as int) == prefix {
        Some(s.skip(prefix.len() as int))
    } else {
        None
    }
}

/// What follows `prefix` in `s`, when `s` starts with it.
pub fn strip_prefix(s: &str, prefix: &str) -> (r: Option<String>)
    ensures
        opt_view(r) == strip_prefix_spec(s@, prefix@),
{
    let n = s.unicode_len();
    let m = prefix.unicode_len();
    if m > n {
        return None;
    }
    let mut i: usize = 0;
    while i < m
        invariant
            i <= m <= n,
            n == s@.len(),
            m == prefix@.len(),
            s@.take(i as int) == prefix@.take(i as int),
        decreases m - i,
    {
        if s.get_char(i) != prefix.get_char(i) {
            assert(s@.take(m as int)[i as int] != prefix@[i as int]);
            return None;
        }
        assert(s@.take(i + 1) == s@.take(i as int).push(s@[i as int]));
        assert(prefix@.take(i + 1) == prefix@.take(i as int).push(prefix@[i as int]));
        i = i + 1;
    }
    assert(prefix@.take(m as int) == prefix@);
    Some(s.substring_char(m, n).to_owned())
}

/// The token that an `Authorization` header's text carries, if any.
pub open spec fn header_token(header: Option<&str>) -> Option<Seq<char>> {
    match header {
        Some(h) => strip_prefix_spec(h@, "Bearer "@),
        None => None,
    }
}

/// The token an `Authorization` header carries: the header's text after
/// `Bearer `. A missing header, one that is not text, or one without that
/// prefix is refused with 401.
pub fn bearer_token(header: Option<&str>) -> (r: Result<String, (u16, AuthError)>)
    ensures
        match header_token(header) {
            Some(t) => r is Ok && r->Ok_0@ == t,
            None => r is Err && r->Err_0.0 == 401 && r->Err_0.1.error@
                == "Missing or invalid Authorization header"@,
        },
{
    let token = match header {
        Some(h) => strip_prefix(h, "Bearer "),
        None => None,
    };
    match token {
        Some(t) => Ok(t),
        None => Err(
            (401, AuthError { error: "Missing or invalid Authorization header".to_owned() }),
        ),
    }
}

/// Whether the session check lets the request through: only when the store
/// confirmed the session. A session it did not find, or a failed lookup, is
/// refused with 401.
pub fn session_check<E>(valid: Result<bool, E>) -> (r: Result<(), (u16, AuthError)>)
    ensures
        valid == Ok::<bool, E>(true) ==> r is Ok,
        valid != Ok::<bool, E>(true) ==> (r matches Err(e) && e.0 == 401 && e.1.error@
            == "Invalid or expired session"@),
{
    let ok = match valid {
        Ok(b) => b,
        Err(_) => false,
    };
    if !ok {
        return Err((401, AuthError { error: "Invalid or expired session".to_owned() }));
    }
    Ok(())
}

/// A header made of `Bearer ` and a token yields that token.
pub proof fn lemma_bearer_round_trip(token: Seq<char>)
    ensures
        strip_prefix_spec("Bearer "@ + token, "Bearer "@) == Some(token),
{
    let h = "Bearer "@ + token;
    assert(h.take("Bearer "@.len() as int) == "Bearer "@);
    assert(h.skip("Bearer "@.len() as int) == token);
}

/// A header yields a token only when it is `Bearer ` followed by that
/// token; anything shorter than `Bearer ` or not starting with it yields none.
pub proof fn lemma_bearer_only(h: Seq<char>)
    ensures
        strip_prefix_spec(h, "Bearer "@) matches Some(t) ==> h == "Bearer "@ + t,
        (h.len() < 7 || h.take(7) != "Bearer "@) ==> strip_prefix_spec(h, "Bearer "@) is None,
{
    reveal_strlit("Bearer ");
    assert("Bearer "@.len() == 7);
    if strip_prefix_spec(h, "Bearer "@) is Some {
        assert(h =~= h.take(7) + h.skip(7));
    }
}

} // verus!
