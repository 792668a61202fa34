//! What the project database holds, row by row: the columns a new project is
//! stored under, and the project that a stored row reads back as.
use vstd::prelude::*;
use vstd::string::*;

use crate::models::deployment::{
    deployment_status_from_name, Deployment, DeploymentStatus,
};
use crate::models::project::{
    lemma_project_status_round_trip, opt_view, project_status_from_name, CreateProjectRequest,
    CreateProjectRequestView, Project, ProjectSource, ProjectSourceView, ProjectStatus, ProjectView,
};
use crate::text::{decimal, decimal_string, hex, hex_string, lemma_hex_injective};

verus! {

/// The columns of one row of the `projects` table. A column that could not
/// be read as text is `None`; for the columns that may hold NULL, the inner
/// option is the value read.
pub struct ProjectRow {
    pub id: Option<String>,
    pub name: Option<String>,
    pub target: Option<String>,
    pub domain: Option<Option<String>>,
    pub source_type: Option<String>,
    pub git_url: Option<Option<String>>,
    pub git_branch: Option<Option<String>>,
    pub status: Option<String>,
    pub created_at: Option<String>,
    pub last_deployed: Option<Option<String>>,
}

pub struct ProjectRowView {
    pub id: Option<Seq<char>>,
    pub name: Option<Seq<char>>,
    pub target: Option<Seq<char>>,
    pub domain: Option<Option<Seq<char>>>,
    pub source_type: Option<Seq<char>>,
    pub git_url: Option<Option<Seq<char>>>,
    pub git_branch: Option<Option<Seq<char>>>,
    pub status: Option<Seq<char>>,
    pub created_at: Option<Seq<char>>,
    pub last_deployed: Option<Option<Seq<char>>>,
}

pub open spec fn opt_opt_view(o: Option<Option<String>>) -> Option<Option<Seq<char>>> {
    match o {
        Some(inner) => Some(opt_view(inner)),
        None => None,
    }
}

impl View for ProjectRow {
    type V = ProjectRowView;

    open spec fn view(&self) -> ProjectRowView {
        ProjectRowView {
            id: opt_view(self.id),
            name: opt_view(self.name),
            target: opt_view(self.target),
            domain: opt_opt_view(self.domain),
            source_type: opt_view(self.source_type),
            git_url: opt_opt_view(self.git_url),
            git_branch: opt_opt_view(self.git_branch),
            status: opt_view(self.status),
            created_at: opt_view(self.created_at),
            last_deployed: opt_opt_view(self.last_deployed),
        }
    }
}

/// A text column's value, or the empty text when it could not be read.
pub open spec fn text_or_empty(o: Option<Seq<char>>) -> Seq<char> {
    match o {
        Some(s) => s,
        None => Seq::empty(),
    }
}

/// A nullable column's value; unreadable counts as NULL.
pub open spec fn nullable(o: Option<Option<Seq<char>>>) -> Option<Seq<char>> {
    match o {
        Some(inner) => inner,
        None => None,
    }
}

/// The project that a stored row stands for. Unreadable text columns read
/// as empty text; a source type other than `git_repo` is an upload; a git
/// source without a branch is on `main`; an unknown status is `Created`.
pub open spec fn row_project_view(row: ProjectRowView) -> ProjectView {
    ProjectView {
        id: text_or_empty(row.id),
        name: text_or_empty(row.name),
        target: text_or_empty(row.target),
        domain: nullable(row.domain),
        source: if text_or_empty(row.source_type) == "git_repo"@ {
            ProjectSourceView::GitRepo {
                url: text_or_empty(nullable(row.git_url)),
                branch: match nullable(row.git_branch) {
                    Some(b) => b,
                    None => "main"@,
                },
            }
        } else {
            ProjectSourceView::Upload
        },
        status: project_status_from_name(text_or_empty(row.status)),
        created_at: text_or_empty(row.created_at),
        last_deployed: nullable(row.last_deployed),
    }
}

fn text_or_default(o: Option<String>) -> (r: String)
    ensures
        r@ == text_or_empty(opt_view(o)),
{
    match o {
        Some(s) => s,
        None => String::new(),
    }
}

fn flatten(o: Option<Option<String>>) -> (r: Option<String>)
    ensures
        opt_view(r) == nullable(opt_opt_view(o)),
{
    match o {
        Some(inner) => inner,
        None => None,
    }
}

/// The project that a row of the `projects` table stands for.
pub fn row_to_project(row: ProjectRow) -> (r: Project)
    ensures
        r@ == row_project_view(row@),
{
    let ghost rv = row@;
    let source_type = text_or_default(row.source_type);
    let git_url = flatten(row.git_url);
    let git_branch = flatten(row.git_branch);
    let status_name = text_or_default(row.status);
    let source = if source_type == "git_repo".to_owned() {
        ProjectSource::GitRepo {
            url: text_or_default(git_url),
            branch: match git_branch {
                Some(b) => b,
                None => "main".to_owned(),
            },
        }
    } else {
        ProjectSource::Upload
    };
    let status = ProjectStatus::from_name(status_name.as_str());
    let r = Project {
        id: text_or_default(row.id),
        name: text_or_default(row.name),
        target: text_or_default(row.target),
        domain: flatten(row.domain),
        source,
        status,
        created_at: text_or_default(row.created_at),
        last_deployed: flatten(row.last_deployed),
    };
    assert(r@.source == row_project_view(rv).source);
    r
}

/// The identifier of a project created at `nanos` nanoseconds past the epoch.
pub open spec fn project_id_text(nanos: nat) -> Seq<char> {
    "proj_"@ + hex(nanos)
}

/// The creation time text for `secs` seconds past the epoch.
pub open spec fn timestamp_text(secs: nat) -> Seq<char> {
    decimal(secs) + "Z"@
}

/// The source a creation request asks for: a git repository when it names a
/// URL (on branch `main` unless it names one), an upload otherwise.
pub open spec fn requested_source(req: CreateProjectRequestView) -> ProjectSourceView {
    match req.git_url {
        Some(url) => ProjectSourceView::GitRepo {
            url,
            branch: match req.git_branch {
                Some(b) => b,
                None => "main"@,
            },
        },
        None => ProjectSourceView::Upload,
    }
}

/// The project that `create` makes of a request at the given time.
pub open spec fn spec_new_project(req: CreateProjectRequestView, nanos: nat, secs: nat) -> ProjectView {
    ProjectView {
        id: project_id_text(nanos),
        name: req.name,
        target: req.target,
        domain: req.domain,
        source: requested_source(req),
        status: ProjectStatus::Created,
        created_at: timestamp_text(secs),
        last_deployed: None,
    }
}

/// The row that `create` inserts for a request at the given time.
pub open spec fn spec_new_row(req: CreateProjectRequestView, nanos: nat, secs: nat) -> ProjectRowView {
    ProjectRowView {
        id: Some(project_id_text(nanos)),
        name: Some(req.name),
        target: Some(req.target),
        domain: Some(req.domain),
        source_type: Some(
            if req.git_url is Some {
                "git_repo"@
            } else {
                "upload"@
            },
        ),
        git_url: Some(req.git_url),
        git_branch: Some(
            match req.git_url {
                Some(_) => Some(
                    match req.git_branch {
                        Some(b) => b,
                        None => "main"@,
                    },
                ),
                None => None,
            },
        ),
        status: Some("created"@),
        created_at: Some(timestamp_text(secs)),
        last_deployed: Some(None),
    }
}

/// The lowercase hexadecimal form of a nanosecond timestamp.
pub fn hex_id(nanos: u128) -> (r: String)
    ensures
        r@ == hex(nanos as nat),
{
    hex_string(nanos)
}

/// A timestamp of `secs` seconds past the epoch: the decimal seconds and `Z`.
pub fn now_iso(secs: u64) -> (r: String)
    ensures
        r@ == timestamp_text(secs as nat),
{
    let mut r = decimal_string(secs as u128);
    r.append("Z");
    r
}

/// A new project and the row to insert for it.
pub struct NewProject {
    pub row: ProjectRow,
    pub project: Project,
}

fn clone_opt(o: &Option<String>) -> (r: Option<String>)
    ensures
        r == *o,
{
    match o {
        Some(s) => Some(s.clone()),
        None => None,
    }
}

/// The project that a creation request makes at `nanos` nanoseconds (its
/// identifier) and `secs` seconds (its creation time) past the epoch, with
/// the row to insert for it.
pub fn new_project(req: CreateProjectRequest, nanos: u128, secs: u64) -> (r: NewProject)
    ensures
        r.project@ == spec_new_project(req@, nanos as nat, secs as nat),
        r.row@ == spec_new_row(req@, nanos as nat, secs as nat),
{
    let ghost rv = req@;
    let mut id = "proj_".to_owned();
    let hexed = hex_id(nanos);
    id.append(hexed.as_str());
    let created_at = now_iso(secs);
    let (source_type, git_url, git_branch) = match req.git_url {
        Some(url) => {
            let branch = match req.git_branch {
                Some(b) => b,
                None => "main".to_owned(),
            };
            ("git_repo".to_owned(), Some(url), Some(branch))
        },
        None => ("upload".to_owned(), None, None),
    };
    let source = match (&git_url, &git_branch) {
        (Some(url), Some(branch)) => ProjectSource::GitRepo { url: url.clone(), branch: branch.clone() },
        _ => ProjectSource::Upload,
    };
    let row = ProjectRow {
        id: Some(id.clone()),
        name: Some(req.name.clone()),
        target: Some(req.target.clone()),
        domain: Some(clone_opt(&req.domain)),
        source_type: Some(source_type),
        git_url: Some(git_url),
        git_branch: Some(git_branch),
        status: Some("created".to_owned()),
        created_at: Some(created_at.clone()),
        last_deployed: Some(None),
    };
    let project = Project {
        id,
        name: req.name,
        target: req.target,
        domain: req.domain,
        source,
        status: ProjectStatus::Created,
        created_at,
        last_deployed: None,
    };
    assert(project@.source == requested_source(rv));
    NewProject { row, project }
}

/// A project read back from the row that was stored for it is the project
/// that was created.
pub proof fn lemma_stored_project_reads_back(req: CreateProjectRequestView, nanos: nat, secs: nat)
    ensures
        row_project_view(spec_new_row(req, nanos, secs)) == spec_new_project(req, nanos, secs),
{
    reveal_strlit("git_repo");
    reveal_strlit("upload");
    reveal_strlit("created");
    assert("git_repo"@.len() == 8);
    assert("upload"@.len() == 6);
    lemma_project_status_round_trip(ProjectStatus::Created);
}

/// Two projects created at different instants get different identifiers.
pub proof fn lemma_project_ids_distinct(a: nat, b: nat)
    requires
        a != b,
    ensures
        project_id_text(a) != project_id_text(b),
{
    if project_id_text(a) == project_id_text(b) {
        let p = "proj_"@;
        assert(hex(a) == project_id_text(a).skip(p.len() as int));
        assert(hex(b) == project_id_text(b).skip(p.len() as int));
        lemma_hex_injective(a, b);
    }
}

/// The columns of one row of the `deployments` table, read as for projects:
/// `None` for a column that could not be read, the inner option for NULL.
pub struct DeploymentRow {
    pub id: Option<String>,
    pub project_id: Option<String>,
    pub target: Option<String>,
    pub status: Option<String>,
    pub content_hash: Option<Option<String>>,
    pub gateway_url: Option<Option<String>>,
    pub size_bytes: Option<Option<u64>>,
    pub created_at: Option<String>,
    pub completed_at: Option<Option<String>>,
}

/// The deployment that a row of the `deployments` table stands for, with the
/// same reading of unreadable and NULL columns as for projects; an unknown
/// status is `Queued`.
pub fn row_to_deployment(row: DeploymentRow) -> (r: Deployment)
    ensures
        r.id@ == text_or_empty(opt_view(row.id)),
        r.project_id@ == text_or_empty(opt_view(row.project_id)),
        r.target@ == text_or_empty(opt_view(row.target)),
        r.status == deployment_status_from_name(text_or_empty(opt_view(row.status))),
        opt_view(r.content_hash) == nullable(opt_opt_view(row.content_hash)),
        opt_view(r.gateway_url) == nullable(opt_opt_view(row.gateway_url)),
        r.size_bytes == (match row.size_bytes {
            Some(inner) => inner,
            None => None,
        }),
        r.created_at@ == text_or_empty(opt_view(row.created_at)),
        opt_view(r.completed_at) == nullable(opt_opt_view(row.completed_at)),
{
    let status_name = text_or_default(row.status);
    Deployment {
        id: text_or_default(row.id),
        project_id: text_or_default(row.project_id),
        target: text_or_default(row.target),
        status: DeploymentStatus::from_name(status_name.as_str()),
        content_hash: flatten(row.content_hash),
        gateway_url: flatten(row.gateway_url),
        size_bytes: match row.size_bytes {
            Some(inner) => inner,
            None => None,
        },
        created_at: text_or_default(row.created_at),
        completed_at: flatten(row.completed_at),
    }
}

/// The identifier of a deployment recorded at `nanos` nanoseconds past the
/// epoch.
pub open spec fn deployment_id_text(nanos: nat) -> Seq<char> {
    "dep_"@ + hex(nanos)
}

/// The row inserted for a new deployment of `project_id` to `target`, recorded
/// at `nanos` nanoseconds (its identifier) and `secs` seconds (its creation
/// time) past the epoch: queued, with no content, address, size or
/// completion yet.
pub fn new_deployment_row(project_id: String, target: String, nanos: u128, secs: u64) -> (r:
    DeploymentRow)
    ensures
        opt_view(r.id) == Some(deployment_id_text(nanos as nat)),
        r.project_id == Some(project_id),
        r.target == Some(target),
        opt_view(r.status) == Some("queued"@),
        r.content_hash == Some(None::<String>),
        r.gateway_url == Some(None::<String>),
        r.size_bytes == Some(None::<u64>),
        opt_view(r.created_at) == Some(timestamp_text(secs as nat)),
        r.completed_at == Some(None::<String>),
{
    let mut id = "dep_".to_owned();
    let hexed = hex_id(nanos);
    id.append(hexed.as_str());
    DeploymentRow {
        id: Some(id),
        project_id: Some(project_id),
        target: Some(target),
        status: Some("queued".to_owned()),
        content_hash: Some(None),
        gateway_url: Some(None),
        size_bytes: Some(None),
        created_at: Some(now_iso(secs)),
        completed_at: Some(None),
    }
}

/// Two deployments recorded at different instants get different identifiers.
pub proof fn lemma_deployment_ids_distinct(a: nat, b: nat)
    requires
        a != b,
    ensures
        deployment_id_text(a) != deployment_id_text(b),
{
    if deployment_id_text(a) == deployment_id_text(b) {
        let p = "dep_"@;
        assert(hex(a) == deployment_id_text(a).skip(p.len() as int));
        assert(hex(b) == deployment_id_text(b).skip(p.len() as int));
        lemma_hex_injective(a, b);
    }
}

/// A new deployment row reads back as queued.
pub proof fn lemma_new_deployment_reads_queued()
    ensures
        deployment_status_from_name("queued"@) == DeploymentStatus::Queued,
{
    crate::models::deployment::lemma_deployment_status_round_trip(DeploymentStatus::Queued);
}

/// How a stored row reads back, column by column: each readable text column
/// is the project's field, an unreadable one is empty; a nullable column
/// gives its value, an unreadable one none; the status column's names
/// `created`, `deploying`, `live` and `failed` give those statuses and any
/// other text gives `Created`; `git_repo` gives a git source on the stored
/// URL and branch (`main` when none), anything else an upload.
pub proof fn lemma_row_reads_columns(row: ProjectRowView, url: Seq<char>, branch: Seq<char>)
    ensures
        row.id matches Some(x) ==> row_project_view(row).id == x,
        row.id is None ==> row_project_view(row).id == Seq::<char>::empty(),
        row.name matches Some(x) ==> row_project_view(row).name == x,
        row.name is None ==> row_project_view(row).name == Seq::<char>::empty(),
        row.target matches Some(x) ==> row_project_view(row).target == x,
        row.target is None ==> row_project_view(row).target == Seq::<char>::empty(),
        row.created_at matches Some(x) ==> row_project_view(row).created_at == x,
        row.domain matches Some(x) ==> row_project_view(row).domain == x,
        row.domain is None ==> row_project_view(row).domain is None,
        row.last_deployed matches Some(x) ==> row_project_view(row).last_deployed == x,
        row.last_deployed is None ==> row_project_view(row).last_deployed is None,
        row.status == Some("created"@) ==> row_project_view(row).status == ProjectStatus::Created,
        row.status == Some("deploying"@) ==> row_project_view(row).status
            == ProjectStatus::Deploying,
        row.status == Some("live"@) ==> row_project_view(row).status == ProjectStatus::Live,
        row.status == Some("failed"@) ==> row_project_view(row).status == ProjectStatus::Failed,
        (row.status is None || (row.status->0 != "deploying"@ && row.status->0 != "live"@
            && row.status->0 != "failed"@)) ==> row_project_view(row).status
            == ProjectStatus::Created,
        (row.source_type == Some("git_repo"@) && row.git_url == Some(Some(url)) && row.git_branch
            == Some(Some(branch))) ==> row_project_view(row).source == (ProjectSourceView::GitRepo {
            url,
            branch,
        }),
        (row.source_type == Some("git_repo"@) && row.git_url == Some(Some(url)) && (row.git_branch
            is None || row.git_branch == Some(None::<Seq<char>>))) ==> row_project_view(row).source
            == (ProjectSourceView::GitRepo { url, branch: "main"@ }),
        row.source_type != Some("git_repo"@) ==> row_project_view(row).source
            == ProjectSourceView::Upload,
{
    reveal_strlit("created");
    reveal_strlit("deploying");
    reveal_strlit("live");
    reveal_strlit("failed");
    reveal_strlit("git_repo");
    assert("created"@.len() == 7);
    assert("deploying"@.len() == 9);
    assert("live"@.len() == 4);
    assert("failed"@.len() == 6);
    assert("git_repo"@.len() == 8);
    if row.source_type is None {
        assert(Seq::<char>::empty() != "git_repo"@);
    }
}

/// A created project, field by field: identifier `proj_` and the hex
/// nanoseconds; the request's name, target and domain whatever its source;
/// a git source on the request's URL and branch (`main` when it names none)
/// when it names a URL, an upload otherwise; status `Created`; created at the
/// decimal seconds followed by `Z`; never deployed. The row stored for it
/// holds the same values, the status as `created` and the source type as
/// `git_repo` or `upload`.
pub proof fn lemma_new_project_fields(
    req: CreateProjectRequestView,
    nanos: nat,
    secs: nat,
    url: Seq<char>,
    branch: Seq<char>,
)
    ensures
        spec_new_project(req, nanos, secs).id == "proj_"@ + hex(nanos),
        spec_new_project(req, nanos, secs).name == req.name,
        spec_new_project(req, nanos, secs).target == req.target,
        spec_new_project(req, nanos, secs).domain == req.domain,
        spec_new_project(req, nanos, secs).status == ProjectStatus::Created,
        spec_new_project(req, nanos, secs).created_at == decimal(secs) + "Z"@,
        spec_new_project(req, nanos, secs).last_deployed is None,
        (req.git_url == Some(url) && req.git_branch == Some(branch)) ==> spec_new_project(
            req,
            nanos,
            secs,
        ).source == (ProjectSourceView::GitRepo { url, branch }),
        (req.git_url == Some(url) && req.git_branch is None) ==> spec_new_project(
            req,
            nanos,
            secs,
        ).source == (ProjectSourceView::GitRepo { url, branch: "main"@ }),
        req.git_url is None ==> spec_new_project(req, nanos, secs).source
            == ProjectSourceView::Upload,
        spec_new_row(req, nanos, secs).id == Some("proj_"@ + hex(nanos)),
        spec_new_row(req, nanos, secs).name == Some(req.name),
        spec_new_row(req, nanos, secs).target == Some(req.target),
        spec_new_row(req, nanos, secs).domain == Some(req.domain),
        spec_new_row(req, nanos, secs).status == Some("created"@),
        spec_new_row(req, nanos, secs).created_at == Some(decimal(secs) + "Z"@),
        spec_new_row(req, nanos, secs).last_deployed == Some(None::<Seq<char>>),
        req.git_url is Some ==> spec_new_row(req, nanos, secs).source_type == Some("git_repo"@),
        req.git_url is None ==> spec_new_row(req, nanos, secs).source_type == Some("upload"@),
        spec_new_row(req, nanos, secs).git_url == Some(req.git_url),
{
}

} // verus!
