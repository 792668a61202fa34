//! Pinata, the pinning service that IPFS deployments go through.
use vstd::prelude::*;
use vstd::string::*;

verus! {

/// The Pinata account that uploads are pinned with, by its access token.
pub struct PinataService {
    jwt: String,
}

/// The address of Pinata's gateway for a content identifier.
pub open spec fn pinata_gateway_url(cid: Seq<char>) -> Seq<char> {
    "https://gateway.pinata.cloud/ipfs/"@ + cid
}

impl PinataService {
    /// The account whose token is `jwt`.
    pub fn new(jwt: String) -> (r: PinataService)
        ensures
            r.token() == jwt@,
    {
        PinataService { jwt }
    }

    pub closed spec fn token(&self) -> Seq<char> {
        self.jwt@
    }

    /// The token that uploads are authorized with.
    pub fn jwt(&self) -> (r: &str)
        ensures
            r@ == self.token(),
    {
        self.jwt.as_str()
    }

    /// The public address at which Pinata serves `cid`.
    pub fn gateway_url(cid: &str) -> (r: String)
        ensures
            r@ == pinata_gateway_url(cid@),
    {
        let mut r = "https://gateway.pinata.cloud/ipfs/".to_owned();
        r.append(cid);
        r
    }
}

} // verus!
