//! The storage networks a project can be deployed to.
use vstd::prelude::*;

verus! {

/// A storage network that projects can be deployed to.
#[derive(Debug, Clone, PartialEq, Eq)]
pub struct DeployTarget {
    pub id: &'static str,
    pub name: &'static str,
    pub description: &'static str,
    pub status: TargetStatus,
    pub features: Vec<&'static str>,
}

/// Whether deployments to a target work yet.
#[derive(Debug, Clone, Copy, PartialEq, Eq, Structural)]
pub enum TargetStatus {
    Active,
    Planned,
    Experimental,
}

pub struct DeployTargetView {
    pub id: Seq<char>,
    pub name: Seq<char>,
    pub description: Seq<char>,
    pub status: TargetStatus,
    pub features: Seq<Seq<char>>,
}

impl View for DeployTarget {
    type V = DeployTargetView;

    open spec fn view(&self) -> DeployTargetView {
        DeployTargetView {
            id: self.id@,
            name: self.name@,
            description: self.description@,
            status: self.status,
            features: self.features@.map_values(|f: &'static str| f@),
        }
    }
}

/// The targets on offer, in the order they are listed.
pub open spec fn spec_available_targets() -> Seq<DeployTargetView> {
    seq![
        DeployTargetView {
            id: "ipfs"@,
            name: "IPFS"@,
            description: "InterPlanetary File System — content-addressed, distributed hosting"@,
            status: TargetStatus::Active,
            features: seq!["static-sites"@, "spa"@, "dapp-frontends"@, "pinning"@],
        },
        DeployTargetView {
            id: "arweave"@,
            name: "Arweave"@,
            description: "Permanent storage — pay once, stored forever"@,
            status: TargetStatus::Active,
            features: seq!["permanent-storage"@, "static-sites"@, "nft-metadata"@],
        },
        DeployTargetView {
            id: "filecoin"@,
            name: "Filecoin"@,
            description: "Decentralized storage network — large-scale data deals"@,
            status: TargetStatus::Active,
            features: seq!["large-files"@, "storage-deals"@, "data-archival"@],
        },
    ]
}

/// Lists the targets, all active: IPFS, Arweave and Filecoin.
pub fn available_targets() -> (r: Vec<DeployTarget>)
    ensures
        r@.len() == spec_available_targets().len(),
        forall|i: int| 0 <= i < r@.len() ==> #[trigger] r@[i]@ == spec_available_targets()[i],
{
    let r = vec![
        DeployTarget {
            id: "ipfs",
            name: "IPFS",
            description: "InterPlanetary File System — content-addressed, distributed hosting",
            status: TargetStatus::Active,
            features: vec!["static-sites", "spa", "dapp-frontends", "pinning"],
        },
        DeployTarget {
            id: "arweave",
            name: "Arweave",
            description: "Permanent storage — pay once, stored forever",
            status: TargetStatus::Active,
            features: vec!["permanent-storage", "static-sites", "nft-metadata"],
        },
        DeployTarget {
            id: "filecoin",
            name: "Filecoin",
            description: "Decentralized storage network — large-scale data deals",
            status: TargetStatus::Active,
            features: vec!["large-files", "storage-deals", "data-archival"],
        },
    ];
    assert(r@[0].features@.map_values(|f: &'static str| f@) =~= spec_available_targets()[0].features);
    assert(r@[1].features@.map_values(|f: &'static str| f@) =~= spec_available_targets()[1].features);
    assert(r@[2].features@.map_values(|f: &'static str| f@) =~= spec_available_targets()[2].features);
    r
}

/// The storage network a deploy goes to.
#[derive(Debug, Clone, Copy, PartialEq, Eq, Structural)]
pub enum StorageTarget {
    /// IPFS, pinned through Pinata.
    Ipfs,
    /// Arweave, through ArDrive Turbo.
    Arweave,
    /// Filecoin, through Lighthouse.
    Filecoin,
}

/// The storage network a target id names, if any.
pub open spec fn storage_target_from_id(id: Seq<char>) -> Option<StorageTarget> {
    if id == "ipfs"@ {
        Some(StorageTarget::Ipfs)
    } else if id == "arweave"@ {
        Some(StorageTarget::Arweave)
    } else if id == "filecoin"@ {
        Some(StorageTarget::Filecoin)
    } else {
        None
    }
}

impl StorageTarget {
    /// The storage network that target id `id` names: `ipfs`, `arweave` or
    /// `filecoin`; `None` for anything else.
    pub fn from_id(id: &str) -> (r: Option<StorageTarget>)
        ensures
            r == storage_target_from_id(id@),
    {
        let n = id.to_owned();
        if n == "ipfs".to_owned() {
            Some(StorageTarget::Ipfs)
        } else if n == "arweave".to_owned() {
            Some(StorageTarget::Arweave)
        } else if n == "filecoin".to_owned() {
            Some(StorageTarget::Filecoin)
        } else {
            None
        }
    }
}

/// The storage network a project with target id `id` deploys to: Arweave
/// or Filecoin when the id names them, IPFS for `ipfs` and for any other id.
pub open spec fn deploy_storage(id: Seq<char>) -> StorageTarget {
    match storage_target_from_id(id) {
        Some(t) => t,
        None => StorageTarget::Ipfs,
    }
}

impl StorageTarget {
    /// The storage network that a project with target id `id` deploys to;
    /// an id that names no network deploys to IPFS.
    pub fn for_target(id: &str) -> (r: StorageTarget)
        ensures
            r == deploy_storage(id@),
    {
        match StorageTarget::from_id(id) {
            Some(t) => t,
            None => StorageTarget::Ipfs,
        }
    }
}

/// No two targets share an id, every target is active, and every target's id
/// names a storage network that deploys go to.
pub proof fn lemma_targets_distinct_and_deployable(i: int, j: int)
    requires
        0 <= i < spec_available_targets().len(),
        0 <= j < spec_available_targets().len(),
    ensures
        i != j ==> spec_available_targets()[i].id != spec_available_targets()[j].id,
        spec_available_targets()[i].status == TargetStatus::Active,
        storage_target_from_id(spec_available_targets()[i].id) is Some,
{
    reveal_strlit("ipfs");
    reveal_strlit("arweave");
    reveal_strlit("filecoin");
    assert("ipfs"@.len() == 4);
    assert("arweave"@.len() == 7);
    assert("filecoin"@.len() == 8);
}

/// The display name of a storage network.
pub open spec fn network_name(t: StorageTarget) -> Seq<char> {
    match t {
        StorageTarget::Ipfs => "IPFS"@,
        StorageTarget::Arweave => "Arweave"@,
        StorageTarget::Filecoin => "Filecoin"@,
    }
}

/// Each listed target is shown under the name of the network its id
/// selects, so no two targets share a name; the list is IPFS, Arweave and
/// Filecoin, in that order.
pub proof fn lemma_target_names(i: int, j: int)
    requires
        0 <= i < spec_available_targets().len(),
        0 <= j < spec_available_targets().len(),
    ensures
        spec_available_targets().len() == 3,
        spec_available_targets()[i].name == network_name(
            storage_target_from_id(spec_available_targets()[i].id)->0,
        ),
        i != j ==> spec_available_targets()[i].name != spec_available_targets()[j].name,
        storage_target_from_id(spec_available_targets()[0].id) == Some(StorageTarget::Ipfs),
        storage_target_from_id(spec_available_targets()[1].id) == Some(StorageTarget::Arweave),
        storage_target_from_id(spec_available_targets()[2].id) == Some(StorageTarget::Filecoin),
{
    reveal_strlit("ipfs");
    reveal_strlit("arweave");
    reveal_strlit("filecoin");
    reveal_strlit("IPFS");
    reveal_strlit("Arweave");
    reveal_strlit("Filecoin");
    assert("ipfs"@.len() == 4);
    assert("arweave"@.len() == 7);
    assert("filecoin"@.len() == 8);
    assert("IPFS"@.len() == 4);
    assert("Arweave"@.len() == 7);
    assert("Filecoin"@.len() == 8);
}

} // verus!
