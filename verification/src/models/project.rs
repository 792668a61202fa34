//! Projects: what is deployed, where to, and how far it has got.
use vstd::prelude::*;
use vstd::string::*;

verus! {

/// The view of an optional string: its characters, when there is one.
pub open spec fn opt_view(o: Option<String>) -> Option<Seq<char>> {
    match o {
        Some(s) => Some(s@),
        None => None,
    }
}

/// A site that can be deployed to one of the storage targets.
#[derive(Debug, Clone, PartialEq, Eq)]
pub struct Project {
    pub id: String,
    pub name: String,
    pub target: String,
    pub domain: Option<String>,
    pub source: ProjectSource,
    pub status: ProjectStatus,
    pub created_at: String,
    pub last_deployed: Option<String>,
}

/// Where a project's files come from.
#[derive(Debug, Clone, PartialEq, Eq)]
pub enum ProjectSource {
    Upload,
    GitRepo { url: String, branch: String },
}

/// How far a project has got.
#[derive(Debug, Clone, Copy, PartialEq, Eq, Structural)]
pub enum ProjectStatus {
    Created,
    Deploying,
    Live,
    Failed,
}

/// The fields a client sends to create a project.
#[derive(Debug, Clone, PartialEq, Eq)]
pub struct CreateProjectRequest {
    pub name: String,
    pub target: String,
    pub domain: Option<String>,
    pub git_url: Option<String>,
    pub git_branch: Option<String>,
}

pub struct CreateProjectRequestView {
    pub name: Seq<char>,
    pub target: Seq<char>,
    pub domain: Option<Seq<char>>,
    pub git_url: Option<Seq<char>>,
    pub git_branch: Option<Seq<char>>,
}

impl View for CreateProjectRequest {
    type V = CreateProjectRequestView;

    open spec fn view(&self) -> CreateProjectRequestView {
        CreateProjectRequestView {
            name: self.name@,
            target: self.target@,
            domain: opt_view(self.domain),
            git_url: opt_view(self.git_url),
            git_branch: opt_view(self.git_branch),
        }
    }
}

pub enum ProjectSourceView {
    Upload,
    GitRepo { url: Seq<char>, branch: Seq<char> },
}

pub struct ProjectView {
    pub id: Seq<char>,
    pub name: Seq<char>,
    pub target: Seq<char>,
    pub domain: Option<Seq<char>>,
    pub source: ProjectSourceView,
    pub status: ProjectStatus,
    pub created_at: Seq<char>,
    pub last_deployed: Option<Seq<char>>,
}

impl View for ProjectSource {
    type V = ProjectSourceView;

    open spec fn view(&self) -> ProjectSourceView {
        match self {
            ProjectSource::Upload => ProjectSourceView::Upload,
            ProjectSource::GitRepo { url, branch } => ProjectSourceView::GitRepo {
                url: url@,
                branch: branch@,
            },
        }
    }
}

impl View for Project {
    type V = ProjectView;

    open spec fn view(&self) -> ProjectView {
        ProjectView {
            id: self.id@,
            name: self.name@,
            target: self.target@,
            domain: opt_view(self.domain),
            source: self.source@,
            status: self.status,
            created_at: self.created_at@,
            last_deployed: opt_view(self.last_deployed),
        }
    }
}

/// The lowercase name under which a project status is stored and sent.
pub open spec fn project_status_name(s: ProjectStatus) -> Seq<char> {
    match s {
        ProjectStatus::Created => "created"@,
        ProjectStatus::Deploying => "deploying"@,
        ProjectStatus::Live => "live"@,
        ProjectStatus::Failed => "failed"@,
    }
}

/// The status that a stored status name stands for; an unknown name counts
/// as `Created`.
pub open spec fn project_status_from_name(name: Seq<char>) -> ProjectStatus {
    if name == "deploying"@ {
        ProjectStatus::Deploying
    } else if name == "live"@ {
        ProjectStatus::Live
    } else if name == "failed"@ {
        ProjectStatus::Failed
    } else {
        ProjectStatus::Created
    }
}

impl ProjectStatus {
    /// The lowercase name of this status.
    pub fn as_str(&self) -> (r: &'static str)
        ensures
            r@ == project_status_name(*self),
    {
        match self {
            ProjectStatus::Created => "created",
            ProjectStatus::Deploying => "deploying",
            ProjectStatus::Live => "live",
            ProjectStatus::Failed => "failed",
        }
    }

    /// The status stored under `name`; anything unknown is `Created`.
    pub fn from_name(name: &str) -> (r: ProjectStatus)
        ensures
            r == project_status_from_name(name@),
    {
        let n = name.to_owned();
        if n == "deploying".to_owned() {
            ProjectStatus::Deploying
        } else if n == "live".to_owned() {
            ProjectStatus::Live
        } else if n == "failed".to_owned() {
            ProjectStatus::Failed
        } else {
            ProjectStatus::Created
        }
    }
}

/// A status written under its name reads back as the same status.
pub proof fn lemma_project_status_round_trip(s: ProjectStatus)
    ensures
        project_status_from_name(project_status_name(s)) == s,
{
    reveal_strlit("created");
    reveal_strlit("deploying");
    reveal_strlit("live");
    reveal_strlit("failed");
    assert("created"@.len() == 7);
    assert("deploying"@.len() == 9);
    assert("live"@.len() == 4);
    assert("failed"@.len() == 6);
}

/// The stored names of the project statuses, and what each name reads as:
/// `created`, `deploying`, `live` and `failed`; any other name reads as
/// `Created`.
pub proof fn lemma_project_status_names(name: Seq<char>)
    ensures
        project_status_name(ProjectStatus::Created) == "created"@,
        project_status_name(ProjectStatus::Deploying) == "deploying"@,
        project_status_name(ProjectStatus::Live) == "live"@,
        project_status_name(ProjectStatus::Failed) == "failed"@,
        name == "deploying"@ ==> project_status_from_name(name) == ProjectStatus::Deploying,
        name == "live"@ ==> project_status_from_name(name) == ProjectStatus::Live,
        name == "failed"@ ==> project_status_from_name(name) == ProjectStatus::Failed,
        (name != "deploying"@ && name != "live"@ && name != "failed"@) ==> project_status_from_name(
            name,
        ) == ProjectStatus::Created,
{
    reveal_strlit("deploying");
    reveal_strlit("live");
    reveal_strlit("failed");
    assert("deploying"@.len() == 9);
    assert("live"@.len() == 4);
    assert("failed"@.len() == 6);
}

} // verus!
