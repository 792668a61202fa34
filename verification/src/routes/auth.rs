//! Logging in: the password check, the session token handed out, and the
//! reply.
use vstd::prelude::*;
use vstd::string::*;

use crate::text::{hex, hex_string};

verus! {

/// What a client sends to log in.
#[derive(Debug, Clone, PartialEq, Eq)]
pub struct LoginRequest {
    pub password: String,
}

/// What a successful login answers: the session token.
#[derive(Debug, Clone, PartialEq, Eq)]
pub struct LoginResponse {
    pub token: String,
}

/// The body of a refused login.
#[derive(Debug, Clone, PartialEq, Eq)]
pub struct AuthError {
    pub error: String,
}

/// The multiplier and increment that scramble the low 64 bits of the
/// timestamp into a token's second half.
pub open spec fn token_mix(nanos: nat) -> nat {
    ((nanos % 0x1_0000_0000_0000_0000) * 6364136223846793005 + 1442695040888963407)
        % 0x1_0000_0000_0000_0000
}

/// The token made at `nanos` nanoseconds past the epoch: the timestamp in
/// hexadecimal, then its scrambled low 64 bits in hexadecimal.
pub open spec fn token_text(nanos: nat) -> Seq<char> {
    hex(nanos) + hex(token_mix(nanos))
}

/// A session token for a login at `nanos` nanoseconds past the epoch.
pub fn generate_token(nanos: u128) -> (r: String)
    ensures
        r@ == token_text(nanos as nat),
{
    let low: u128 = nanos % 0x1_0000_0000_0000_0000;
    assert(low * 6364136223846793005 + 1442695040888963407 < 0x1_0000_0000_0000_0000_0000_0000_0000_0000)
        by (nonlinear_arith)
        requires
            low < 0x1_0000_0000_0000_0000,
    ;
    let mixed: u128 = (low * 6364136223846793005 + 1442695040888963407) % 0x1_0000_0000_0000_0000;
    let mut r = hex_string(nanos);
    let tail = hex_string(mixed);
    r.append(tail.as_str());
    r
}

/// The password check: a password other than the administrator's is refused
/// with 401.
pub fn check_password(req: &LoginRequest, admin_password: &String) -> (r: Result<(), (u16, AuthError)>)
    ensures
        req.password@ == admin_password@ <==> r is Ok,
        r matches Err(e) ==> e.0 == 401 && e.1.error@ == "Invalid password"@,
{
    if req.password != *admin_password {
        return Err((401, AuthError { error: "Invalid password".to_owned() }));
    }
    Ok(())
}

/// The reply once the session for `token` has been stored, or has failed to
/// be: the token, or an internal error.
pub fn login_reply<E>(token: String, stored: Result<(), E>) -> (r: Result<LoginResponse, (u16, AuthError)>)
    ensures
        stored is Ok ==> r == Ok::<LoginResponse, (u16, AuthError)>(LoginResponse { token }),
        stored is Err ==> (r matches Err(e) && e.0 == 500 && e.1.error@ == "Internal server error"@),
{
    match stored {
        Ok(()) => Ok(LoginResponse { token }),
        Err(_) => Err((500, AuthError { error: "Internal server error".to_owned() })),
    }
}

/// A token is the login time in hexadecimal followed by the hexadecimal of
/// its low 64 bits times 6364136223846793005 plus 1442695040888963407,
/// modulo 2^64; logins at different instants begin with different times.
pub proof fn lemma_token_shape(nanos: nat)
    ensures
        token_text(nanos) == hex(nanos) + hex(
            ((nanos % 18446744073709551616) * 6364136223846793005 + 1442695040888963407)
                % 18446744073709551616,
        ),
        token_text(nanos).take(hex(nanos).len() as int) == hex(nanos),
{
    assert(token_text(nanos).take(hex(nanos).len() as int) =~= hex(nanos));
}

} // verus!
