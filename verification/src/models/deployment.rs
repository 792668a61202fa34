//! Deployments: one upload of a project's files to its target.
use vstd::prelude::*;
use vstd::string::*;

verus! {

/// One upload of a project's files, and what became of it.
#[derive(Debug, Clone, PartialEq, Eq)]
pub struct Deployment {
    pub id: String,
    pub project_id: String,
    pub target: String,
    pub status: DeploymentStatus,
    pub content_hash: Option<String>,
    pub gateway_url: Option<String>,
    pub created_at: String,
    pub completed_at: Option<String>,
    pub size_bytes: Option<u64>,
}

/// How far a deployment has got.
#[derive(Debug, Clone, Copy, PartialEq, Eq, Structural)]
pub enum DeploymentStatus {
    Queued,
    Uploading,
    Pinning,
    Live,
    Failed,
}

/// The lowercase name under which a deployment status is stored and sent.
pub open spec fn deployment_status_name(s: DeploymentStatus) -> Seq<char> {
    match s {
        DeploymentStatus::Queued => "queued"@,
        DeploymentStatus::Uploading => "uploading"@,
        DeploymentStatus::Pinning => "pinning"@,
        DeploymentStatus::Live => "live"@,
        DeploymentStatus::Failed => "failed"@,
    }
}

/// The status that a stored name stands for; an unknown name counts as
/// `Queued`, the state a deployment record starts in.
pub open spec fn deployment_status_from_name(name: Seq<char>) -> DeploymentStatus {
    if name == "uploading"@ {
        DeploymentStatus::Uploading
    } else if name == "pinning"@ {
        DeploymentStatus::Pinning
    } else if name == "live"@ {
        DeploymentStatus::Live
    } else if name == "failed"@ {
        DeploymentStatus::Failed
    } else {
        DeploymentStatus::Queued
    }
}

impl DeploymentStatus {
    /// The lowercase name of this status.
    pub fn as_str(&self) -> (r: &'static str)
        ensures
            r@ == deployment_status_name(*self),
    {
        match self {
            DeploymentStatus::Queued => "queued",
            DeploymentStatus::Uploading => "uploading",
            DeploymentStatus::Pinning => "pinning",
            DeploymentStatus::Live => "live",
            DeploymentStatus::Failed => "failed",
        }
    }

    /// The status stored under `name`; anything unknown is `Queued`.
    pub fn from_name(name: &str) -> (r: DeploymentStatus)
        ensures
            r == deployment_status_from_name(name@),
    {
        let n = name.to_owned();
        if n == "uploading".to_owned() {
            DeploymentStatus::Uploading
        } else if n == "pinning".to_owned() {
            DeploymentStatus::Pinning
        } else if n == "live".to_owned() {
            DeploymentStatus::Live
        } else if n == "failed".to_owned() {
            DeploymentStatus::Failed
        } else {
            DeploymentStatus::Queued
        }
    }
}

/// A status written under its name reads back as the same status.
pub proof fn lemma_deployment_status_round_trip(s: DeploymentStatus)
    ensures
        deployment_status_from_name(deployment_status_name(s)) == s,
{
    reveal_strlit("queued");
    reveal_strlit("uploading");
    reveal_strlit("pinning");
    reveal_strlit("live");
    reveal_strlit("failed");
    assert("queued"@.len() == 6);
    assert("uploading"@.len() == 9);
    assert("pinning"@.len() == 7);
    assert("live"@.len() == 4);
    assert("failed"@.len() == 6);
    assert("queued"@[0] != "failed"@[0]);
}

/// The stored names of the deployment statuses, and what each name reads
/// as: `queued`, `uploading`, `pinning`, `live` and `failed`; any other name
/// reads as `Queued`.
pub proof fn lemma_deployment_status_names(name: Seq<char>)
    ensures
        deployment_status_name(DeploymentStatus::Queued) == "queued"@,
        deployment_status_name(DeploymentStatus::Uploading) == "uploading"@,
        deployment_status_name(DeploymentStatus::Pinning) == "pinning"@,
        deployment_status_name(DeploymentStatus::Live) == "live"@,
        deployment_status_name(DeploymentStatus::Failed) == "failed"@,
        name == "uploading"@ ==> deployment_status_from_name(name) == DeploymentStatus::Uploading,
        name == "pinning"@ ==> deployment_status_from_name(name) == DeploymentStatus::Pinning,
        name == "live"@ ==> deployment_status_from_name(name) == DeploymentStatus::Live,
        name == "failed"@ ==> deployment_status_from_name(name) == DeploymentStatus::Failed,
        (name != "uploading"@ && name != "pinning"@ && name != "live"@ && name != "failed"@)
            ==> deployment_status_from_name(name) == DeploymentStatus::Queued,
{
    reveal_strlit("uploading");
    reveal_strlit("pinning");
    reveal_strlit("live");
    reveal_strlit("failed");
    assert("uploading"@.len() == 9);
    assert("pinning"@.len() == 7);
    assert("live"@.len() == 4);
    assert("failed"@.len() == 6);
}

} // verus!
