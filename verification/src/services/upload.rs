//! What the storage services' answers become.
use vstd::prelude::*;
use vstd::string::*;

verus! {

/// The error text for a storage service that refused an upload:
/// `<service> API error <status>: <body>`.
pub open spec fn api_error_text(service: Seq<char>, status: Seq<char>, body: Seq<char>) -> Seq<char> {
    service + " API error "@ + status + ": "@ + body
}

/// The error text for a storage service that refused an upload with HTTP
/// status `status` (its code and reason) and answer `body`.
pub fn api_error_message(service: &str, status: &str, body: &str) -> (r: String)
    ensures
        r@ == api_error_text(service@, status@, body@),
{
    let mut r = service.to_owned();
    r.append(" API error ");
    r.append(status);
    r.append(": ");
    r.append(body);
    r
}

} // verus!
