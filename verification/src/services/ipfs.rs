//! An IPFS node reached through its HTTP API: the addresses of the calls
//! made to it, and of the public gateway that serves what it holds.
use vstd::prelude::*;
use vstd::string::*;

verus! {

/// An IPFS node, by the base address of its HTTP API.
pub struct IpfsService {
    api_url: String,
    gateway: String,
}

/// `base` followed by `tail`.
fn joined(base: &str, tail: &str) -> (r: String)
    ensures
        r@ == base@ + tail@,
{
    let mut r = base.to_owned();
    r.append(tail);
    r
}

impl IpfsService {
    /// A node whose API is at `api_url`, whose content is served by
    /// `gateway` followed by the CID.
    pub fn new(api_url: String, gateway: String) -> (r: IpfsService)
        ensures
            r.api_url() == api_url@,
            r.gateway() == gateway@,
    {
        IpfsService { api_url, gateway }
    }

    pub closed spec fn api_url(&self) -> Seq<char> {
        self.api_url@
    }

    pub closed spec fn gateway(&self) -> Seq<char> {
        self.gateway@
    }

    /// The address that reports the node's identity.
    pub fn id_url(&self) -> (r: String)
        ensures
            r@ == self.api_url() + "/api/v0/id"@,
    {
        joined(self.api_url.as_str(), "/api/v0/id")
    }

    /// The address that adds a file to the node.
    pub fn add_url(&self) -> (r: String)
        ensures
            r@ == self.api_url() + "/api/v0/add"@,
    {
        joined(self.api_url.as_str(), "/api/v0/add")
    }

    /// The address that pins `cid` on the node.
    pub fn pin_url(&self, cid: &str) -> (r: String)
        ensures
            r@ == self.api_url() + "/api/v0/pin/add?arg="@ + cid@,
    {
        let mut r = joined(self.api_url.as_str(), "/api/v0/pin/add?arg=");
        r.append(cid);
        r
    }

    /// The public address at which `cid` is served: the gateway, then the CID.
    pub fn gateway_url(&self, cid: &str) -> (r: String)
        ensures
            r@ == self.gateway() + cid@,
    {
        joined(self.gateway.as_str(), cid)
    }
}

} // verus!
