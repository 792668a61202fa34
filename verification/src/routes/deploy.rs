//! Deploying an upload: the decisions of the deploy endpoint, one step per
//! outside operation. The caller performs each action, reports what came of
//! it as the next event, and stops at the reply.
use vstd::prelude::*;
use vstd::string::*;

use crate::config::AppConfig;
use crate::models::deployment::Deployment;
use crate::models::project::{opt_view, ProjectStatus};
use crate::models::target::{deploy_storage, StorageTarget};
use crate::routes::projects::{internal_err, project_not_found, ApiError, ApiResult};
use crate::services::store::{now_iso, timestamp_text};
use crate::text::{decimal, decimal_string};

verus! {

/// What a successful deployment answers.
#[derive(Debug, Clone, PartialEq, Eq)]
pub struct DeployResponse {
    pub deployment_id: String,
    pub cid: String,
    pub gateway_url: String,
    pub size_bytes: u64,
}

/// What deploys may use: which storage services are set up, the gateway of
/// each, and the upload limit.
pub struct DeploySettings {
    pub ipfs_ready: bool,
    pub arweave_ready: bool,
    pub filecoin_ready: bool,
    pub ipfs_gateway: String,
    pub arweave_gateway: String,
    pub filecoin_gateway: String,
    pub max_upload_mb: u64,
}

pub struct DeploySettingsView {
    pub ipfs_ready: bool,
    pub arweave_ready: bool,
    pub filecoin_ready: bool,
    pub ipfs_gateway: Seq<char>,
    pub arweave_gateway: Seq<char>,
    pub filecoin_gateway: Seq<char>,
    pub max_upload_mb: u64,
}

impl View for DeploySettings {
    type V = DeploySettingsView;

    open spec fn view(&self) -> DeploySettingsView {
        DeploySettingsView {
            ipfs_ready: self.ipfs_ready,
            arweave_ready: self.arweave_ready,
            filecoin_ready: self.filecoin_ready,
            ipfs_gateway: self.ipfs_gateway@,
            arweave_gateway: self.arweave_gateway@,
            filecoin_gateway: self.filecoin_gateway@,
            max_upload_mb: self.max_upload_mb,
        }
    }
}

impl DeploySettings {
    /// The deploy settings of a server: a service is set up when its key is
    /// set (Pinata token, ArDrive Turbo key, Lighthouse key); the gateways
    /// and the limit are the configured ones, Arweave's `https://arweave.net`
    /// when none is set.
    pub fn from_config(c: &AppConfig) -> (r: DeploySettings)
        ensures
            r.ipfs_ready == c.pinata_jwt is Some,
            r.arweave_ready == c.arweave_api_key is Some,
            r.filecoin_ready == c.lighthouse_api_key is Some,
            r.ipfs_gateway@ == c.ipfs_gateway@,
            r.arweave_gateway@ == (match c.arweave_gateway_url {
                Some(g) => g@,
                None => "https://arweave.net"@,
            }),
            r.filecoin_gateway@ == c.filecoin_gateway@,
            r.max_upload_mb == c.max_upload_mb,
    {
        DeploySettings {
            ipfs_ready: c.pinata_jwt.is_some(),
            arweave_ready: c.arweave_api_key.is_some(),
            filecoin_ready: c.lighthouse_api_key.is_some(),
            ipfs_gateway: c.ipfs_gateway.clone(),
            arweave_gateway: match &c.arweave_gateway_url {
                Some(g) => g.clone(),
                None => "https://arweave.net".to_owned(),
            },
            filecoin_gateway: c.filecoin_gateway.clone(),
            max_upload_mb: c.max_upload_mb,
        }
    }
}

/// Where a deployment stands, by what it waits for.
pub enum DeployStep {
    /// Waiting for the project lookup.
    Project { project_id: String, settings: DeploySettings },
    /// Waiting for the first field of the upload.
    Field {
        project_id: String,
        target: String,
        storage: StorageTarget,
        gateway: String,
        max_upload_mb: u64,
    },
    /// Waiting for the uploaded file's contents.
    Bytes {
        project_id: String,
        target: String,
        storage: StorageTarget,
        gateway: String,
        max_upload_mb: u64,
        filename: String,
    },
    /// Waiting for the deployment record to be created.
    Record { project_id: String, storage: StorageTarget, gateway: String, filename: String },
    /// Waiting for the project to be marked as deploying.
    MarkDeploying {
        project_id: String,
        storage: StorageTarget,
        gateway: String,
        filename: String,
        deployment_id: String,
    },
    /// Waiting for the file to be stored.
    Upload { project_id: String, storage: StorageTarget, gateway: String, deployment_id: String },
    /// Waiting for the deployment record to be completed.
    Complete { project_id: String, deployment_id: String, cid: String, gateway_url: String, size: u64 },
    /// Waiting for the current time.
    Clock { project_id: String, deployment_id: String, cid: String, gateway_url: String, size: u64 },
    /// Waiting for the project to be marked as live.
    MarkLive { deployment_id: String, cid: String, gateway_url: String, size: u64 },
    /// Waiting for the deployment record to be marked as failed.
    FailRecord { project_id: String },
    /// Waiting for the project to be marked as failed.
    MarkFailed,
}

/// What came of the last action.
pub enum DeployEvent {
    /// The project lookup: the project's target when it exists.
    ProjectLookup(Result<Option<String>, ()>),
    /// The first upload field: its file name, if it gave one; the error text
    /// when reading failed.
    Field(Result<Option<Option<String>>, String>),
    /// Reading the file's contents: their length in bytes; the error text
    /// when reading failed.
    Bytes(Result<u64, String>),
    /// Creating the deployment record: its identifier.
    Recorded(Result<String, ()>),
    /// Storing the file: its content identifier and size.
    Uploaded(Result<(String, u64), ()>),
    /// The current time in seconds past the epoch.
    Now(u64),
    /// An operation whose outcome does not matter has finished.
    Done,
}

/// What the caller is to do next.
pub enum DeployAction {
    LookupProject { project_id: String },
    ReadField,
    ReadBytes,
    CreateDeployment { project_id: String, target: String },
    SetStatus { project_id: String, status: ProjectStatus, last_deployed: Option<String> },
    /// Store the file with the service of `storage`.
    UploadFile { storage: StorageTarget, filename: String },
    CompleteDeployment { deployment_id: String, cid: String, gateway_url: String, size: u64 },
    FailDeployment { deployment_id: String },
    ReadClock,
    Respond(ApiResult<DeployResponse>),
}

/// One step: where the deployment goes next (nothing once it has replied)
/// and what to do.
pub struct DeployTurn {
    pub next: Option<DeployStep>,
    pub action: DeployAction,
}

pub struct DeployResponseView {
    pub deployment_id: Seq<char>,
    pub cid: Seq<char>,
    pub gateway_url: Seq<char>,
    pub size_bytes: u64,
}

pub type ReplyView = Result<DeployResponseView, (u16, Seq<char>)>;

pub enum DeployStepView {
    Project { project_id: Seq<char>, settings: DeploySettingsView },
    Field {
        project_id: Seq<char>,
        target: Seq<char>,
        storage: StorageTarget,
        gateway: Seq<char>,
        max_upload_mb: u64,
    },
    Bytes {
        project_id: Seq<char>,
        target: Seq<char>,
        storage: StorageTarget,
        gateway: Seq<char>,
        max_upload_mb: u64,
        filename: Seq<char>,
    },
    Record { project_id: Seq<char>, storage: StorageTarget, gateway: Seq<char>, filename: Seq<char> },
    MarkDeploying {
        project_id: Seq<char>,
        storage: StorageTarget,
        gateway: Seq<char>,
        filename: Seq<char>,
        deployment_id: Seq<char>,
    },
    Upload {
        project_id: Seq<char>,
        storage: StorageTarget,
        gateway: Seq<char>,
        deployment_id: Seq<char>,
    },
    Complete {
        project_id: Seq<char>,
        deployment_id: Seq<char>,
        cid: Seq<char>,
        gateway_url: Seq<char>,
        size: u64,
    },
    Clock {
        project_id: Seq<char>,
        deployment_id: Seq<char>,
        cid: Seq<char>,
        gateway_url: Seq<char>,
        size: u64,
    },
    MarkLive { deployment_id: Seq<char>, cid: Seq<char>, gateway_url: Seq<char>, size: u64 },
    FailRecord { project_id: Seq<char> },
    MarkFailed,
}

pub enum DeployEventView {
    ProjectLookup(Result<Option<Seq<char>>, ()>),
    Field(Result<Option<Option<Seq<char>>>, Seq<char>>),
    Bytes(Result<u64, Seq<char>>),
    Recorded(Result<Seq<char>, ()>),
    Uploaded(Result<(Seq<char>, u64), ()>),
    Now(u64),
    Done,
}

pub enum DeployActionView {
    LookupProject { project_id: Seq<char> },
    ReadField,
    ReadBytes,
    CreateDeployment { project_id: Seq<char>, target: Seq<char> },
    SetStatus { project_id: Seq<char>, status: ProjectStatus, last_deployed: Option<Seq<char>> },
    UploadFile { storage: StorageTarget, filename: Seq<char> },
    CompleteDeployment { deployment_id: Seq<char>, cid: Seq<char>, gateway_url: Seq<char>, size: u64 },
    FailDeployment { deployment_id: Seq<char> },
    ReadClock,
    Respond(ReplyView),
}

pub open spec fn reply_view(r: ApiResult<DeployResponse>) -> ReplyView {
    match r {
        Ok(d) => Ok(
            DeployResponseView {
                deployment_id: d.deployment_id@,
                cid: d.cid@,
                gateway_url: d.gateway_url@,
                size_bytes: d.size_bytes,
            },
        ),
        Err(e) => Err((e.0, e.1.error@)),
    }
}

impl View for DeployStep {
    type V = DeployStepView;

    open spec fn view(&self) -> DeployStepView {
        match self {
            DeployStep::Project { project_id, settings } => DeployStepView::Project {
                project_id: project_id@,
                settings: settings@,
            },
            DeployStep::Field { project_id, target, storage, gateway, max_upload_mb } =>
                DeployStepView::Field {
                project_id: project_id@,
                target: target@,
                storage: *storage,
                gateway: gateway@,
                max_upload_mb: *max_upload_mb,
            },
            DeployStep::Bytes { project_id, target, storage, gateway, max_upload_mb, filename } =>
                DeployStepView::Bytes {
                project_id: project_id@,
                target: target@,
                storage: *storage,
                gateway: gateway@,
                max_upload_mb: *max_upload_mb,
                filename: filename@,
            },
            DeployStep::Record { project_id, storage, gateway, filename } =>
                DeployStepView::Record {
                project_id: project_id@,
                storage: *storage,
                gateway: gateway@,
                filename: filename@,
            },
            DeployStep::MarkDeploying { project_id, storage, gateway, filename, deployment_id } =>
                DeployStepView::MarkDeploying {
                project_id: project_id@,
                storage: *storage,
                gateway: gateway@,
                filename: filename@,
                deployment_id: deployment_id@,
            },
            DeployStep::Upload { project_id, storage, gateway, deployment_id } =>
                DeployStepView::Upload {
                project_id: project_id@,
                storage: *storage,
                gateway: gateway@,
                deployment_id: deployment_id@,
            },
            DeployStep::Complete { project_id, deployment_id, cid, gateway_url, size } =>
                DeployStepView::Complete {
                project_id: project_id@,
                deployment_id: deployment_id@,
                cid: cid@,
                gateway_url: gateway_url@,
                size: *size,
            },
            DeployStep::Clock { project_id, deployment_id, cid, gateway_url, size } =>
                DeployStepView::Clock {
                project_id: project_id@,
                deployment_id: deployment_id@,
                cid: cid@,
                gateway_url: gateway_url@,
                size: *size,
            },
            DeployStep::MarkLive { deployment_id, cid, gateway_url, size } =>
                DeployStepView::MarkLive {
                deployment_id: deployment_id@,
                cid: cid@,
                gateway_url: gateway_url@,
                size: *size,
            },
            DeployStep::FailRecord { project_id } => DeployStepView::FailRecord {
                project_id: project_id@,
            },
            DeployStep::MarkFailed => DeployStepView::MarkFailed,
        }
    }
}

impl View for DeployEvent {
    type V = DeployEventView;

    open spec fn view(&self) -> DeployEventView {
        match self {
            DeployEvent::ProjectLookup(r) => DeployEventView::ProjectLookup(
                match r {
                    Ok(t) => Ok(opt_view(*t)),
                    Err(()) => Err(()),
                },
            ),
            DeployEvent::Field(r) => DeployEventView::Field(
                match r {
                    Ok(Some(name)) => Ok(Some(opt_view(*name))),
                    Ok(None) => Ok(None),
                    Err(e) => Err(e@),
                },
            ),
            DeployEvent::Bytes(r) => DeployEventView::Bytes(
                match r {
                    Ok(len) => Ok(*len),
                    Err(e) => Err(e@),
                },
            ),
            DeployEvent::Recorded(r) => DeployEventView::Recorded(
                match r {
                    Ok(d) => Ok(d@),
                    Err(()) => Err(()),
                },
            ),
            DeployEvent::Uploaded(r) => DeployEventView::Uploaded(
                match r {
                    Ok((cid, size)) => Ok((cid@, *size)),
                    Err(()) => Err(()),
                },
            ),
            DeployEvent::Now(t) => DeployEventView::Now(*t),
            DeployEvent::Done => DeployEventView::Done,
        }
    }
}

impl View for DeployAction {
    type V = DeployActionView;

    open spec fn view(&self) -> DeployActionView {
        match self {
            DeployAction::LookupProject { project_id } => DeployActionView::LookupProject {
                project_id: project_id@,
            },
            DeployAction::ReadField => DeployActionView::ReadField,
            DeployAction::ReadBytes => DeployActionView::ReadBytes,
            DeployAction::CreateDeployment { project_id, target } =>
                DeployActionView::CreateDeployment { project_id: project_id@, target: target@ },
            DeployAction::SetStatus { project_id, status, last_deployed } =>
                DeployActionView::SetStatus {
                project_id: project_id@,
                status: *status,
                last_deployed: opt_view(*last_deployed),
            },
            DeployAction::UploadFile { storage, filename } => DeployActionView::UploadFile {
                storage: *storage,
                filename: filename@,
            },
            DeployAction::CompleteDeployment { deployment_id, cid, gateway_url, size } =>
                DeployActionView::CompleteDeployment {
                deployment_id: deployment_id@,
                cid: cid@,
                gateway_url: gateway_url@,
                size: *size,
            },
            DeployAction::FailDeployment { deployment_id } => DeployActionView::FailDeployment {
                deployment_id: deployment_id@,
            },
            DeployAction::ReadClock => DeployActionView::ReadClock,
            DeployAction::Respond(r) => DeployActionView::Respond(reply_view(*r)),
        }
    }
}

pub open spec fn opt_step_view(s: Option<DeployStep>) -> Option<DeployStepView> {
    match s {
        Some(st) => Some(st@),
        None => None,
    }
}

/// The reply to an internal failure.
pub open spec fn internal_reply() -> ReplyView {
    Err((500, "Internal server error"@))
}

/// A final reply with an error.
pub open spec fn error_reply(status: u16, text: Seq<char>) -> DeployActionView {
    DeployActionView::Respond(Err((status, text)))
}

/// The file name used when the upload gives none.
pub open spec fn default_filename() -> Seq<char> {
    "site.tar.gz"@
}

/// Whether the service of `t` is set up.
pub open spec fn storage_ready(s: DeploySettingsView, t: StorageTarget) -> bool {
    match t {
        StorageTarget::Ipfs => s.ipfs_ready,
        StorageTarget::Arweave => s.arweave_ready,
        StorageTarget::Filecoin => s.filecoin_ready,
    }
}

/// The gateway that serves what is stored on `t`.
pub open spec fn storage_gateway(s: DeploySettingsView, t: StorageTarget) -> Seq<char> {
    match t {
        StorageTarget::Ipfs => s.ipfs_gateway,
        StorageTarget::Arweave => s.arweave_gateway,
        StorageTarget::Filecoin => s.filecoin_gateway,
    }
}

/// The public address of `id` stored on `t`: the gateway followed by the
/// identifier, with a `/` between them for Arweave, whose gateway is a bare
/// host.
pub open spec fn gateway_address(t: StorageTarget, gateway: Seq<char>, id: Seq<char>) -> Seq<char> {
    match t {
        StorageTarget::Arweave => gateway + "/"@ + id,
        _ => gateway + id,
    }
}

/// The refusal for a target whose service is not set up.
pub open spec fn not_configured_text(t: StorageTarget) -> Seq<char> {
    match t {
        StorageTarget::Ipfs => "IPFS deployment not configured. Set PINATA_JWT in environment."@,
        StorageTarget::Arweave => "Arweave deployment not configured. Set ARWEAVE_API_KEY in environment."@,
        StorageTarget::Filecoin => "Filecoin deployment not configured. Set LIGHTHOUSE_API_KEY in environment."@,
    }
}

/// The refusal for an upload over the limit of `max_mb` megabytes.
pub open spec fn too_large_text(max_mb: u64) -> Seq<char> {
    "Upload exceeds the limit of "@ + decimal(max_mb as nat) + " MB"@
}

/// Whether an upload of `len` bytes is over a limit of `max_mb` megabytes.
pub open spec fn over_limit(len: u64, max_mb: u64) -> bool {
    len > max_mb * 1048576
}

/// The deploy endpoint's decisions. Each stage takes the event it waits for
/// and gives the next stage and action; any other event ends the deployment
/// with an internal error.
pub open spec fn spec_step(s: DeployStepView, e: DeployEventView) -> (
    Option<DeployStepView>,
    DeployActionView,
) {
    match (s, e) {
        (DeployStepView::Project { project_id, settings }, DeployEventView::ProjectLookup(found)) =>
            match found {
            Err(()) => (None, DeployActionView::Respond(internal_reply())),
            Ok(None) => (None, error_reply(404, "Project not found"@)),
            Ok(Some(target)) => {
                let storage = deploy_storage(target);
                if storage_ready(settings, storage) {
                    (
                        Some(
                            DeployStepView::Field {
                                project_id,
                                target,
                                storage,
                                gateway: storage_gateway(settings, storage),
                                max_upload_mb: settings.max_upload_mb,
                            },
                        ),
                        DeployActionView::ReadField,
                    )
                } else {
                    (None, error_reply(503, not_configured_text(storage)))
                }
            },
        },
        (
            DeployStepView::Field { project_id, target, storage, gateway, max_upload_mb },
            DeployEventView::Field(field),
        ) => match field {
            Err(text) => (None, error_reply(400, "Failed to read upload: "@ + text)),
            Ok(None) => (None, error_reply(400, "No file uploaded"@)),
            Ok(Some(name)) => (
                Some(
                    DeployStepView::Bytes {
                        project_id,
                        target,
                        storage,
                        gateway,
                        max_upload_mb,
                        filename: match name {
                            Some(n) => n,
                            None => default_filename(),
                        },
                    },
                ),
                DeployActionView::ReadBytes,
            ),
        },
        (
            DeployStepView::Bytes { project_id, target, storage, gateway, max_upload_mb, filename },
            DeployEventView::Bytes(read),
        ) => match read {
            Err(text) => (None, error_reply(400, "Failed to read file data: "@ + text)),
            Ok(len) => if over_limit(len, max_upload_mb) {
                (None, error_reply(413, too_large_text(max_upload_mb)))
            } else {
                (
                    Some(DeployStepView::Record { project_id, storage, gateway, filename }),
                    DeployActionView::CreateDeployment { project_id, target },
                )
            },
        },
        (
            DeployStepView::Record { project_id, storage, gateway, filename },
            DeployEventView::Recorded(rec),
        ) => match rec {
            Err(()) => (None, DeployActionView::Respond(internal_reply())),
            Ok(deployment_id) => (
                Some(
                    DeployStepView::MarkDeploying {
                        project_id,
                        storage,
                        gateway,
                        filename,
                        deployment_id,
                    },
                ),
                DeployActionView::SetStatus {
                    project_id,
                    status: ProjectStatus::Deploying,
                    last_deployed: None,
                },
            ),
        },
        (
            DeployStepView::MarkDeploying { project_id, storage, gateway, filename, deployment_id },
            DeployEventView::Done,
        ) => (
            Some(DeployStepView::Upload { project_id, storage, gateway, deployment_id }),
            DeployActionView::UploadFile { storage, filename },
        ),
        (
            DeployStepView::Upload { project_id, storage, gateway, deployment_id },
            DeployEventView::Uploaded(stored),
        ) => match stored {
            Ok((cid, size)) => (
                Some(
                    DeployStepView::Complete {
                        project_id,
                        deployment_id,
                        cid,
                        gateway_url: gateway_address(storage, gateway, cid),
                        size,
                    },
                ),
                DeployActionView::CompleteDeployment {
                    deployment_id,
                    cid,
                    gateway_url: gateway_address(storage, gateway, cid),
                    size,
                },
            ),
            Err(()) => (
                Some(DeployStepView::FailRecord { project_id }),
                DeployActionView::FailDeployment { deployment_id },
            ),
        },
        (
            DeployStepView::Complete { project_id, deployment_id, cid, gateway_url, size },
            DeployEventView::Done,
        ) => (
            Some(DeployStepView::Clock { project_id, deployment_id, cid, gateway_url, size }),
            DeployActionView::ReadClock,
        ),
        (
            DeployStepView::Clock { project_id, deployment_id, cid, gateway_url, size },
            DeployEventView::Now(secs),
        ) => (
            Some(DeployStepView::MarkLive { deployment_id, cid, gateway_url, size }),
            DeployActionView::SetStatus {
                project_id,
                status: ProjectStatus::Live,
                last_deployed: Some(timestamp_text(secs as nat)),
            },
        ),
        (
            DeployStepView::MarkLive { deployment_id, cid, gateway_url, size },
            DeployEventView::Done,
        ) => (
            None,
            DeployActionView::Respond(
                Ok(DeployResponseView { deployment_id, cid, gateway_url, size_bytes: size }),
            ),
        ),
        (DeployStepView::FailRecord { project_id }, DeployEventView::Done) => (
            Some(DeployStepView::MarkFailed),
            DeployActionView::SetStatus {
                project_id,
                status: ProjectStatus::Failed,
                last_deployed: None,
            },
        ),
        (DeployStepView::MarkFailed, DeployEventView::Done) => (
            None,
            DeployActionView::Respond(internal_reply()),
        ),
        _ => (None, DeployActionView::Respond(internal_reply())),
    }
}

fn error_text(status: u16, text: &str) -> (r: DeployAction)
    ensures
        r@ == error_reply(status, text@),
{
    DeployAction::Respond(Err((status, ApiError { error: text.to_owned() })))
}

fn prefixed_error(status: u16, prefix: &str, text: String) -> (r: DeployAction)
    ensures
        r@ == error_reply(status, prefix@ + text@),
{
    let mut msg = prefix.to_owned();
    msg.append(text.as_str());
    DeployAction::Respond(Err((status, ApiError { error: msg })))
}

fn internal_action() -> (r: DeployAction)
    ensures
        r@ == DeployActionView::Respond(internal_reply()),
{
    DeployAction::Respond(Err(internal_err()))
}

fn finish(action: DeployAction) -> (r: DeployTurn)
    ensures
        r.next is None,
        r.action == action,
{
    DeployTurn { next: None, action }
}

fn go(next: DeployStep, action: DeployAction) -> (r: DeployTurn)
    ensures
        r.next == Some(next),
        r.action == action,
{
    DeployTurn { next: Some(next), action }
}

/// The refusal for a target whose service is not set up.
fn not_configured(t: StorageTarget) -> (r: DeployAction)
    ensures
        r@ == error_reply(503, not_configured_text(t)),
{
    match t {
        StorageTarget::Ipfs => error_text(
            503,
            "IPFS deployment not configured. Set PINATA_JWT in environment.",
        ),
        StorageTarget::Arweave => error_text(
            503,
            "Arweave deployment not configured. Set ARWEAVE_API_KEY in environment.",
        ),
        StorageTarget::Filecoin => error_text(
            503,
            "Filecoin deployment not configured. Set LIGHTHOUSE_API_KEY in environment.",
        ),
    }
}

/// The public address of `id` stored on `t` behind `gateway`.
pub fn gateway_url_for(t: StorageTarget, gateway: &str, id: &str) -> (r: String)
    ensures
        r@ == gateway_address(t, gateway@, id@),
{
    let mut r = gateway.to_owned();
    match t {
        StorageTarget::Arweave => {
            r.append("/");
        },
        _ => {},
    }
    r.append(id);
    r
}

/// Whether `len` bytes are over a limit of `max_mb` megabytes.
fn is_over_limit(len: u64, max_mb: u64) -> (r: bool)
    ensures
        r == over_limit(len, max_mb),
{
    (len as u128) > (max_mb as u128) * 1048576
}

impl DeployStep {
    /// The first step of deploying to project `project_id` with `settings`:
    /// look the project up.
    pub fn start(project_id: String, settings: DeploySettings) -> (r: (DeployStep, DeployAction))
        ensures
            r.0@ == (DeployStepView::Project { project_id: project_id@, settings: settings@ }),
            r.1@ == (DeployActionView::LookupProject { project_id: project_id@ }),
    {
        let lookup = DeployAction::LookupProject { project_id: project_id.clone() };
        (DeployStep::Project { project_id, settings }, lookup)
    }

    /// Takes what came of the last action and decides the next.
    pub fn step(self, event: DeployEvent) -> (r: DeployTurn)
        ensures
            (opt_step_view(r.next), r.action@) == spec_step(self@, event@),
    {
        match (self, event) {
            (DeployStep::Project { project_id, settings }, DeployEvent::ProjectLookup(found)) => {
                match found {
                    Err(()) => finish(internal_action()),
                    Ok(None) => {
                        let (status, body) = project_not_found();
                        finish(DeployAction::Respond(Err((status, body))))
                    },
                    Ok(Some(target)) => {
                        let storage = StorageTarget::for_target(target.as_str());
                        let (ready, gateway) = match storage {
                            StorageTarget::Ipfs => (settings.ipfs_ready, settings.ipfs_gateway),
                            StorageTarget::Arweave => (settings.arweave_ready, settings.arweave_gateway),
                            StorageTarget::Filecoin => (
                                settings.filecoin_ready,
                                settings.filecoin_gateway,
                            ),
                        };
                        if ready {
                            go(
                                DeployStep::Field {
                                    project_id,
                                    target,
                                    storage,
                                    gateway,
                                    max_upload_mb: settings.max_upload_mb,
                                },
                                DeployAction::ReadField,
                            )
                        } else {
                            finish(not_configured(storage))
                        }
                    },
                }
            },
            (
                DeployStep::Field { project_id, target, storage, gateway, max_upload_mb },
                DeployEvent::Field(field),
            ) => {
                match field {
                    Err(text) => finish(prefixed_error(400, "Failed to read upload: ", text)),
                    Ok(None) => finish(error_text(400, "No file uploaded")),
                    Ok(Some(name)) => {
                        let filename = match name {
                            Some(n) => n,
                            None => "site.tar.gz".to_owned(),
                        };
                        go(
                            DeployStep::Bytes {
                                project_id,
                                target,
                                storage,
                                gateway,
                                max_upload_mb,
                                filename,
                            },
                            DeployAction::ReadBytes,
                        )
                    },
                }
            },
            (
                DeployStep::Bytes { project_id, target, storage, gateway, max_upload_mb, filename },
                DeployEvent::Bytes(read),
            ) => {
                match read {
                    Err(text) => finish(prefixed_error(400, "Failed to read file data: ", text)),
                    Ok(len) => {
                        if is_over_limit(len, max_upload_mb) {
                            let mut msg = "Upload exceeds the limit of ".to_owned();
                            let mb = decimal_string(max_upload_mb as u128);
                            msg.append(mb.as_str());
                            msg.append(" MB");
                            finish(DeployAction::Respond(Err((413, ApiError { error: msg }))))
                        } else {
                            let create = DeployAction::CreateDeployment {
                                project_id: project_id.clone(),
                                target,
                            };
                            go(DeployStep::Record { project_id, storage, gateway, filename }, create)
                        }
                    },
                }
            },
            (
                DeployStep::Record { project_id, storage, gateway, filename },
                DeployEvent::Recorded(rec),
            ) => {
                match rec {
                    Err(()) => finish(internal_action()),
                    Ok(deployment_id) => {
                        let mark = DeployAction::SetStatus {
                            project_id: project_id.clone(),
                            status: ProjectStatus::Deploying,
                            last_deployed: None,
                        };
                        go(
                            DeployStep::MarkDeploying {
                                project_id,
                                storage,
                                gateway,
                                filename,
                                deployment_id,
                            },
                            mark,
                        )
                    },
                }
            },
            (
                DeployStep::MarkDeploying { project_id, storage, gateway, filename, deployment_id },
                DeployEvent::Done,
            ) => {
                go(
                    DeployStep::Upload { project_id, storage, gateway, deployment_id },
                    DeployAction::UploadFile { storage, filename },
                )
            },
            (
                DeployStep::Upload { project_id, storage, gateway, deployment_id },
                DeployEvent::Uploaded(stored),
            ) => {
                match stored {
                    Ok((cid, size)) => {
                        let gateway_url = gateway_url_for(storage, gateway.as_str(), cid.as_str());
                        let complete = DeployAction::CompleteDeployment {
                            deployment_id: deployment_id.clone(),
                            cid: cid.clone(),
                            gateway_url: gateway_url.clone(),
                            size,
                        };
                        go(
                            DeployStep::Complete { project_id, deployment_id, cid, gateway_url, size },
                            complete,
                        )
                    },
                    Err(()) => go(
                        DeployStep::FailRecord { project_id },
                        DeployAction::FailDeployment { deployment_id },
                    ),
                }
            },
            (
                DeployStep::Complete { project_id, deployment_id, cid, gateway_url, size },
                DeployEvent::Done,
            ) => {
                go(
                    DeployStep::Clock { project_id, deployment_id, cid, gateway_url, size },
                    DeployAction::ReadClock,
                )
            },
            (
                DeployStep::Clock { project_id, deployment_id, cid, gateway_url, size },
                DeployEvent::Now(secs),
            ) => {
                let now = now_iso(secs);
                let mark = DeployAction::SetStatus {
                    project_id,
                    status: ProjectStatus::Live,
                    last_deployed: Some(now),
                };
                go(DeployStep::MarkLive { deployment_id, cid, gateway_url, size }, mark)
            },
            (DeployStep::MarkLive { deployment_id, cid, gateway_url, size }, DeployEvent::Done) => {
                finish(
                    DeployAction::Respond(
                        Ok(DeployResponse { deployment_id, cid, gateway_url, size_bytes: size }),
                    ),
                )
            },
            (DeployStep::FailRecord { project_id }, DeployEvent::Done) => {
                let mark = DeployAction::SetStatus {
                    project_id,
                    status: ProjectStatus::Failed,
                    last_deployed: None,
                };
                go(DeployStep::MarkFailed, mark)
            },
            (DeployStep::MarkFailed, DeployEvent::Done) => finish(internal_action()),
            _ => finish(internal_action()),
        }
    }
}

/// The reply to a listing of a project's deployments: the deployments, or an
/// internal error when the store failed.
pub fn list_deployments<E>(listed: Result<Vec<Deployment>, E>) -> (r: ApiResult<Vec<Deployment>>)
    ensures
        listed matches Ok(v) ==> r == Ok::<Vec<Deployment>, (u16, ApiError)>(v),
        listed is Err ==> (r matches Err(e) && e.0 == 500 && e.1.error@ == "Internal server error"@),
{
    match listed {
        Ok(v) => Ok(v),
        Err(_) => Err(internal_err()),
    }
}

/// The actions taken from stage `s` as `events` come in, up to the reply.
pub open spec fn spec_run(s: Option<DeployStepView>, events: Seq<DeployEventView>) -> Seq<
    DeployActionView,
>
    decreases events.len(),
{
    if events.len() == 0 {
        Seq::empty()
    } else {
        match s {
            None => Seq::empty(),
            Some(st) => {
                let (next, action) = spec_step(st, events[0]);
                seq![action] + spec_run(next, events.skip(1))
            },
        }
    }
}

/// The storage service a stage is bound to, once the project's target is
/// known and until the file is stored.
pub open spec fn step_storage(s: DeployStepView) -> Option<StorageTarget> {
    match s {
        DeployStepView::Field { storage, .. } => Some(storage),
        DeployStepView::Bytes { storage, .. } => Some(storage),
        DeployStepView::Record { storage, .. } => Some(storage),
        DeployStepView::MarkDeploying { storage, .. } => Some(storage),
        DeployStepView::Upload { storage, .. } => Some(storage),
        _ => None,
    }
}

/// A deployment replies exactly when it stops: every step that ends the
/// deployment answers, and every answer ends it.
pub proof fn lemma_reply_ends_deployment(s: DeployStepView, e: DeployEventView)
    ensures
        spec_step(s, e).0 is None <==> spec_step(s, e).1 is Respond,
{
}

/// The order of a deployment. The upload is only read for an existing
/// project whose target's storage service (IPFS for a target that names none)
/// is set up, and it is bound to that service; the service never changes afterwards, and the file
/// is stored with it. A deployment record is only created for an upload read
/// in full and within the size limit. A success is only answered after the
/// project was marked live, which only happens once the file was stored.
pub proof fn lemma_deploy_order(s: DeployStepView, e: DeployEventView)
    ensures
        spec_step(s, e).0 matches Some(DeployStepView::Field { target, storage, .. }) ==> (
        deploy_storage(target) == storage && (s matches DeployStepView::Project {
            settings,
            ..
        } && storage_ready(settings, storage)) && e matches DeployEventView::ProjectLookup(
            Ok(Some(_)),
        )),
        spec_step(s, e).0 matches Some(n) ==> (step_storage(s) is Some && step_storage(n) is Some
            ==> step_storage(n) == step_storage(s)),
        spec_step(s, e).1 matches DeployActionView::UploadFile { storage, .. } ==> step_storage(s)
            == Some(storage),
        spec_step(s, e).1 is CreateDeployment ==> (s matches DeployStepView::Bytes {
            max_upload_mb,
            ..
        } && (e matches DeployEventView::Bytes(Ok(len)) && !over_limit(len, max_upload_mb))),
        spec_step(s, e).0 matches Some(DeployStepView::Bytes { .. }) ==> (s is Field && e matches DeployEventView::Field(Ok(Some(_)))),
        spec_step(s, e).1 matches DeployActionView::Respond(Ok(_)) ==> s is MarkLive,
        spec_step(s, e).0 matches Some(DeployStepView::MarkLive { .. }) ==> (s is Clock
            && (spec_step(s, e).1 matches DeployActionView::SetStatus { status, .. } && status
            == ProjectStatus::Live)),
        spec_step(s, e).0 matches Some(DeployStepView::Complete { .. }) ==> (s is Upload && e matches DeployEventView::Uploaded(Ok(_))),
{
}

/// An upload over the limit is refused with 413 before any record, status
/// change or storing.
pub proof fn lemma_oversized_upload_refused(
    project_id: Seq<char>,
    target: Seq<char>,
    storage: StorageTarget,
    gateway: Seq<char>,
    max_upload_mb: u64,
    filename: Seq<char>,
    len: u64,
)
    requires
        over_limit(len, max_upload_mb),
    ensures
        spec_step(
            DeployStepView::Bytes { project_id, target, storage, gateway, max_upload_mb, filename },
            DeployEventView::Bytes(Ok(len)),
        ) == (None::<DeployStepView>, error_reply(413, too_large_text(max_upload_mb))),
{
}

proof fn lemma_run_step(s: DeployStepView, events: Seq<DeployEventView>)
    requires
        events.len() > 0,
    ensures
        spec_run(Some(s), events) == seq![spec_step(s, events[0]).1] + spec_run(
            spec_step(s, events[0]).0,
            events.skip(1),
        ),
{
}

/// An upload that is read within the limit, recorded and stored goes live
/// on the service its project's target selects (IPFS for a target that names
/// none): the file goes to that service;
/// the record is completed with the identifier, its address behind that
/// service's gateway and the size; the project is marked deploying, then live
/// at the time read; the reply carries the deployment, identifier, address
/// and size.
pub proof fn lemma_stored_upload_goes_live(
    project_id: Seq<char>,
    settings: DeploySettingsView,
    target: Seq<char>,
    name: Option<Seq<char>>,
    len: u64,
    deployment_id: Seq<char>,
    cid: Seq<char>,
    size: u64,
    secs: u64,
)
    requires
        storage_ready(settings, deploy_storage(target)),
        !over_limit(len, settings.max_upload_mb),
    ensures
        ({
            let storage = deploy_storage(target);
            let address = gateway_address(storage, storage_gateway(settings, storage), cid);
            let filename = match name {
                Some(n) => n,
                None => default_filename(),
            };
            let events = seq![
                DeployEventView::ProjectLookup(Ok(Some(target))),
                DeployEventView::Field(Ok(Some(name))),
                DeployEventView::Bytes(Ok(len)),
                DeployEventView::Recorded(Ok(deployment_id)),
                DeployEventView::Done,
                DeployEventView::Uploaded(Ok((cid, size))),
                DeployEventView::Done,
                DeployEventView::Now(secs),
                DeployEventView::Done,
            ];
            spec_run(Some(DeployStepView::Project { project_id, settings }), events) == seq![
                DeployActionView::ReadField,
                DeployActionView::ReadBytes,
                DeployActionView::CreateDeployment { project_id, target },
                DeployActionView::SetStatus {
                    project_id,
                    status: ProjectStatus::Deploying,
                    last_deployed: None,
                },
                DeployActionView::UploadFile { storage, filename },
                DeployActionView::CompleteDeployment {
                    deployment_id,
                    cid,
                    gateway_url: address,
                    size,
                },
                DeployActionView::ReadClock,
                DeployActionView::SetStatus {
                    project_id,
                    status: ProjectStatus::Live,
                    last_deployed: Some(timestamp_text(secs as nat)),
                },
                DeployActionView::Respond(
                    Ok(
                        DeployResponseView {
                            deployment_id,
                            cid,
                            gateway_url: address,
                            size_bytes: size,
                        },
                    ),
                ),
            ]
        }),
{
    let storage = deploy_storage(target);
    let gateway = storage_gateway(settings, storage);
    let address = gateway_address(storage, gateway, cid);
    let filename = match name {
        Some(n) => n,
        None => default_filename(),
    };
    let events = seq![
        DeployEventView::ProjectLookup(Ok(Some(target))),
        DeployEventView::Field(Ok(Some(name))),
        DeployEventView::Bytes(Ok(len)),
        DeployEventView::Recorded(Ok(deployment_id)),
        DeployEventView::Done,
        DeployEventView::Uploaded(Ok((cid, size))),
        DeployEventView::Done,
        DeployEventView::Now(secs),
        DeployEventView::Done,
    ];
    let mx = settings.max_upload_mb;
    let s0 = DeployStepView::Project { project_id, settings };
    let s1 = DeployStepView::Field { project_id, target, storage, gateway, max_upload_mb: mx };
    let s2 = DeployStepView::Bytes {
        project_id,
        target,
        storage,
        gateway,
        max_upload_mb: mx,
        filename,
    };
    let s3 = DeployStepView::Record { project_id, storage, gateway, filename };
    let s4 = DeployStepView::MarkDeploying { project_id, storage, gateway, filename, deployment_id };
    let s5 = DeployStepView::Upload { project_id, storage, gateway, deployment_id };
    let s6 = DeployStepView::Complete { project_id, deployment_id, cid, gateway_url: address, size };
    let s7 = DeployStepView::Clock { project_id, deployment_id, cid, gateway_url: address, size };
    let s8 = DeployStepView::MarkLive { deployment_id, cid, gateway_url: address, size };
    assert(spec_step(s0, events[0]).0 == Some(s1));
    assert(spec_step(s1, events[1]).0 == Some(s2));
    assert(spec_step(s2, events[2]).0 == Some(s3));
    assert(spec_step(s3, events[3]).0 == Some(s4));
    assert(spec_step(s4, events[4]).0 == Some(s5));
    assert(spec_step(s5, events[5]).0 == Some(s6));
    assert(spec_step(s6, events[6]).0 == Some(s7));
    assert(spec_step(s7, events[7]).0 == Some(s8));
    assert(spec_step(s8, events[8]).0 == None::<DeployStepView>);
    let e8 = events.skip(8);
    assert(e8.skip(1) =~= Seq::<DeployEventView>::empty());
    assert(e8[0] == events[8]);
    lemma_run_step(s8, e8);
    assert(spec_run(None, e8.skip(1)) =~= Seq::<DeployActionView>::empty());
    let states = seq![s0, s1, s2, s3, s4, s5, s6, s7];
    assert forall|k: int| 0 <= k < 8 implies spec_run(Some(#[trigger] states[k]), events.skip(k))
        == seq![spec_step(states[k], events[k]).1] + spec_run(
        spec_step(states[k], events[k]).0,
        events.skip(k + 1),
    ) by {
        assert(events.skip(k)[0] == events[k]);
        assert(events.skip(k).skip(1) =~= events.skip(k + 1));
        lemma_run_step(states[k], events.skip(k));
    }
    assert(events.skip(0) =~= events);
    assert(states[0] == s0 && states[1] == s1 && states[2] == s2 && states[3] == s3
        && states[4] == s4 && states[5] == s5 && states[6] == s6 && states[7] == s7);
}

/// When storing fails, the deployment record is marked failed, then the
/// project, and the reply is an internal error.
pub proof fn lemma_failed_upload_marks_failed(
    project_id: Seq<char>,
    storage: StorageTarget,
    gateway: Seq<char>,
    deployment_id: Seq<char>,
)
    ensures
        spec_run(
            Some(DeployStepView::Upload { project_id, storage, gateway, deployment_id }),
            seq![DeployEventView::Uploaded(Err(())), DeployEventView::Done, DeployEventView::Done],
        ) == seq![
            DeployActionView::FailDeployment { deployment_id },
            DeployActionView::SetStatus {
                project_id,
                status: ProjectStatus::Failed,
                last_deployed: None,
            },
            DeployActionView::Respond(internal_reply()),
        ],
{
    let events = seq![DeployEventView::Uploaded(Err(())), DeployEventView::Done, DeployEventView::Done];
    let s0 = DeployStepView::Upload { project_id, storage, gateway, deployment_id };
    let s1 = DeployStepView::FailRecord { project_id };
    let s2 = DeployStepView::MarkFailed;
    assert(spec_step(s0, events[0]).0 == Some(s1));
    assert(spec_step(s1, events[1]).0 == Some(s2));
    assert(spec_step(s2, events[2]).0 == None::<DeployStepView>);
    let e2 = events.skip(2);
    assert(e2[0] == events[2]);
    assert(e2.skip(1) =~= Seq::<DeployEventView>::empty());
    lemma_run_step(s2, e2);
    assert(spec_run(None, e2.skip(1)) =~= Seq::<DeployActionView>::empty());
    let e1 = events.skip(1);
    assert(e1[0] == events[1]);
    assert(e1.skip(1) =~= e2);
    lemma_run_step(s1, e1);
    lemma_run_step(s0, events);
    assert(events.skip(1) =~= e1);
}

/// The upload limit is the configured number of megabytes: an upload of
/// more than `m · 1048576` bytes is refused with 413 and a message naming the
/// limit in megabytes, before any record; one of at most that many bytes
/// goes on to be recorded for the project's target.
pub proof fn lemma_upload_limit(
    project_id: Seq<char>,
    target: Seq<char>,
    storage: StorageTarget,
    gateway: Seq<char>,
    m: u64,
    filename: Seq<char>,
    len: u64,
)
    ensures
        len > m * 1048576 ==> spec_step(
            DeployStepView::Bytes { project_id, target, storage, gateway, max_upload_mb: m, filename },
            DeployEventView::Bytes(Ok(len)),
        ) == (
            None::<DeployStepView>,
            DeployActionView::Respond(
                Err((413u16, "Upload exceeds the limit of "@ + decimal(m as nat) + " MB"@)),
            ),
        ),
        len <= m * 1048576 ==> spec_step(
            DeployStepView::Bytes { project_id, target, storage, gateway, max_upload_mb: m, filename },
            DeployEventView::Bytes(Ok(len)),
        ) == (
            Some(DeployStepView::Record { project_id, storage, gateway, filename }),
            DeployActionView::CreateDeployment { project_id, target },
        ),
{
}

/// What each target id deploys to and under which address: `ipfs` and any
/// id naming no network go to IPFS, served at the IPFS gateway followed by
/// the CID; `arweave` goes to Arweave, at the Arweave gateway, `/` and the
/// transaction id; `filecoin` goes to Filecoin, at the Filecoin gateway
/// followed by the CID. A target whose service is not set up is refused
/// with 503 naming the missing setting.
pub proof fn lemma_target_routing(
    project_id: Seq<char>,
    settings: DeploySettingsView,
    target: Seq<char>,
    id: Seq<char>,
)
    ensures
        target == "arweave"@ ==> deploy_storage(target) == StorageTarget::Arweave,
        target == "filecoin"@ ==> deploy_storage(target) == StorageTarget::Filecoin,
        (target != "arweave"@ && target != "filecoin"@) ==> deploy_storage(target)
            == StorageTarget::Ipfs,
        gateway_address(StorageTarget::Ipfs, settings.ipfs_gateway, id) == settings.ipfs_gateway + id,
        gateway_address(StorageTarget::Arweave, settings.arweave_gateway, id)
            == settings.arweave_gateway + "/"@ + id,
        gateway_address(StorageTarget::Filecoin, settings.filecoin_gateway, id)
            == settings.filecoin_gateway + id,
        storage_gateway(settings, StorageTarget::Ipfs) == settings.ipfs_gateway,
        storage_gateway(settings, StorageTarget::Arweave) == settings.arweave_gateway,
        storage_gateway(settings, StorageTarget::Filecoin) == settings.filecoin_gateway,
        storage_ready(settings, StorageTarget::Ipfs) == settings.ipfs_ready,
        storage_ready(settings, StorageTarget::Arweave) == settings.arweave_ready,
        storage_ready(settings, StorageTarget::Filecoin) == settings.filecoin_ready,
        (target == "arweave"@ && !settings.arweave_ready) ==> spec_step(
            DeployStepView::Project { project_id, settings },
            DeployEventView::ProjectLookup(Ok(Some(target))),
        ) == (
            None::<DeployStepView>,
            DeployActionView::Respond(
                Err(
                    (
                        503u16,
                        "Arweave deployment not configured. Set ARWEAVE_API_KEY in environment."@,
                    ),
                ),
            ),
        ),
        (target == "filecoin"@ && !settings.filecoin_ready) ==> spec_step(
            DeployStepView::Project { project_id, settings },
            DeployEventView::ProjectLookup(Ok(Some(target))),
        ) == (
            None::<DeployStepView>,
            DeployActionView::Respond(
                Err(
                    (
                        503u16,
                        "Filecoin deployment not configured. Set LIGHTHOUSE_API_KEY in environment."@,
                    ),
                ),
            ),
        ),
        (target != "arweave"@ && target != "filecoin"@ && !settings.ipfs_ready) ==> spec_step(
            DeployStepView::Project { project_id, settings },
            DeployEventView::ProjectLookup(Ok(Some(target))),
        ) == (
            None::<DeployStepView>,
            DeployActionView::Respond(
                Err((503u16, "IPFS deployment not configured. Set PINATA_JWT in environment."@)),
            ),
        ),
{
    reveal_strlit("ipfs");
    reveal_strlit("arweave");
    reveal_strlit("filecoin");
    assert("ipfs"@.len() == 4);
    assert("arweave"@.len() == 7);
    assert("filecoin"@.len() == 8);
}

/// The replies and steps of a deployment, written out: a missing project is
/// 404 "Project not found" and a failed lookup 500; a failed field read is
/// 400 "Failed to read upload: " and the error, no field 400 "No file
/// uploaded", a field without a name is `site.tar.gz`; a failed file read is
/// 400 "Failed to read file data: " and the error; a failed record is 500; a
/// new record marks the project deploying; the time read marks it live at
/// that many seconds followed by `Z`.
pub proof fn lemma_deploy_replies(
    project_id: Seq<char>,
    settings: DeploySettingsView,
    target: Seq<char>,
    storage: StorageTarget,
    gateway: Seq<char>,
    m: u64,
    filename: Seq<char>,
    text: Seq<char>,
    deployment_id: Seq<char>,
    cid: Seq<char>,
    address: Seq<char>,
    size: u64,
    secs: u64,
)
    ensures
        spec_step(
            DeployStepView::Project { project_id, settings },
            DeployEventView::ProjectLookup(Ok(None)),
        ) == (
            None::<DeployStepView>,
            DeployActionView::Respond(Err((404u16, "Project not found"@))),
        ),
        spec_step(
            DeployStepView::Project { project_id, settings },
            DeployEventView::ProjectLookup(Err(())),
        ) == (
            None::<DeployStepView>,
            DeployActionView::Respond(Err((500u16, "Internal server error"@))),
        ),
        spec_step(
            DeployStepView::Field { project_id, target, storage, gateway, max_upload_mb: m },
            DeployEventView::Field(Err(text)),
        ) == (
            None::<DeployStepView>,
            DeployActionView::Respond(Err((400u16, "Failed to read upload: "@ + text))),
        ),
        spec_step(
            DeployStepView::Field { project_id, target, storage, gateway, max_upload_mb: m },
            DeployEventView::Field(Ok(None)),
        ) == (
            None::<DeployStepView>,
            DeployActionView::Respond(Err((400u16, "No file uploaded"@))),
        ),
        spec_step(
            DeployStepView::Field { project_id, target, storage, gateway, max_upload_mb: m },
            DeployEventView::Field(Ok(Some(None))),
        ) == (
            Some(
                DeployStepView::Bytes {
                    project_id,
                    target,
                    storage,
                    gateway,
                    max_upload_mb: m,
                    filename: "site.tar.gz"@,
                },
            ),
            DeployActionView::ReadBytes,
        ),
        spec_step(
            DeployStepView::Field { project_id, target, storage, gateway, max_upload_mb: m },
            DeployEventView::Field(Ok(Some(Some(filename)))),
        ) == (
            Some(
                DeployStepView::Bytes {
                    project_id,
                    target,
                    storage,
                    gateway,
                    max_upload_mb: m,
                    filename,
                },
            ),
            DeployActionView::ReadBytes,
        ),
        spec_step(
            DeployStepView::Bytes { project_id, target, storage, gateway, max_upload_mb: m, filename },
            DeployEventView::Bytes(Err(text)),
        ) == (
            None::<DeployStepView>,
            DeployActionView::Respond(Err((400u16, "Failed to read file data: "@ + text))),
        ),
        spec_step(
            DeployStepView::Record { project_id, storage, gateway, filename },
            DeployEventView::Recorded(Err(())),
        ) == (
            None::<DeployStepView>,
            DeployActionView::Respond(Err((500u16, "Internal server error"@))),
        ),
        spec_step(
            DeployStepView::Record { project_id, storage, gateway, filename },
            DeployEventView::Recorded(Ok(deployment_id)),
        ).1 == (DeployActionView::SetStatus {
            project_id,
            status: ProjectStatus::Deploying,
            last_deployed: None,
        }),
        spec_step(
            DeployStepView::MarkDeploying { project_id, storage, gateway, filename, deployment_id },
            DeployEventView::Done,
        ).1 == (DeployActionView::UploadFile { storage, filename }),
        spec_step(
            DeployStepView::Clock { project_id, deployment_id, cid, gateway_url: address, size },
            DeployEventView::Now(secs),
        ).1 == (DeployActionView::SetStatus {
            project_id,
            status: ProjectStatus::Live,
            last_deployed: Some(decimal(secs as nat) + "Z"@),
        }),
        spec_step(
            DeployStepView::MarkLive { deployment_id, cid, gateway_url: address, size },
            DeployEventView::Done,
        ).1 == DeployActionView::Respond(
            Ok(DeployResponseView { deployment_id, cid, gateway_url: address, size_bytes: size }),
        ),
{
}

} // verus!
