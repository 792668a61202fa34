use weavefront::config::{default_db_path, default_host, default_max_upload_mb, default_port, AppConfig, ConfigVars};
use weavefront::middleware::{bearer_token, session_check, strip_prefix};
use weavefront::models::deployment::DeploymentStatus;
use weavefront::models::project::{CreateProjectRequest, Project, ProjectSource, ProjectStatus};
use weavefront::models::target::{available_targets, StorageTarget, TargetStatus};
use weavefront::routes::auth::{check_password, generate_token, login_reply, LoginRequest};
use weavefront::routes::deploy::{
    gateway_url_for, list_deployments, DeployAction, DeployEvent, DeploySettings, DeployStep,
};
use weavefront::routes::health::health;
use weavefront::routes::projects::{create_project, delete_project, get_project, list_projects};
use weavefront::services::ipfs::IpfsService;
use weavefront::services::pinata::PinataService;
use weavefront::services::store::{
    hex_id, new_deployment_row, new_project, now_iso, row_to_deployment, row_to_project,
    DeploymentRow, ProjectRow,
};
use weavefront::services::upload::api_error_message;
use weavefront::text::{decimal_string, hex_string, parse_u16, parse_u64};

fn s(x: &str) -> String {
    x.to_string()
}

fn vars() -> ConfigVars {
    ConfigVars {
        host: None,
        port: None,
        db_path: None,
        admin_password: s("secret"),
        pinata_jwt: None,
        ipfs_api_url: None,
        arweave_api_key: None,
        lighthouse_api_key: None,
        ipfs_gateway: None,
        arweave_gateway_url: None,
        filecoin_gateway: None,
        max_upload_mb: None,
    }
}

fn config(port: Option<&str>) -> AppConfig {
    AppConfig::from_vars(ConfigVars { port: port.map(s), ..vars() })
}

#[test]
fn decimal_and_hex_forms() {
    assert_eq!(decimal_string(0), "0");
    assert_eq!(decimal_string(3100), "3100");
    assert_eq!(decimal_string(u128::MAX), u128::MAX.to_string());
    assert_eq!(hex_string(0), "0");
    assert_eq!(hex_string(255), "ff");
    assert_eq!(hex_string(0xdead_beef), "deadbeef");
    assert_eq!(hex_string(u128::MAX), format!("{:x}", u128::MAX));
}

#[test]
fn port_text_parses_like_std() {
    for text in ["0", "80", "+80", "0080", "65535", "65536", "", "+", "-1", " 80", "80 ", "8a", "99999999999", "-0", "++1"] {
        assert_eq!(parse_u16(text), text.parse::<u16>().ok(), "text {:?}", text);
    }
}

#[test]
fn port_round_trip() {
    for p in [0u16, 1, 9, 10, 3100, 65535] {
        assert_eq!(parse_u16(&decimal_string(p as u128)), Some(p));
    }
}

#[test]
fn defaults() {
    assert_eq!(default_host(), "0.0.0.0");
    assert_eq!(default_port(), 3100);
    assert_eq!(default_db_path(), "weavefront.db");
}

#[test]
fn config_from_vars_fills_defaults() {
    let c = config(None);
    assert_eq!(c.host, "0.0.0.0");
    assert_eq!(c.port, 3100);
    assert_eq!(c.db_path, "weavefront.db");
    assert_eq!(c.admin_password, "secret");
    assert_eq!(c.pinata_jwt, None);
    assert_eq!(c.arweave_api_key, None);
    assert_eq!(c.lighthouse_api_key, None);
    assert_eq!(c.ipfs_gateway, "https://cloudflare-ipfs.com/ipfs/");
    assert_eq!(c.arweave_gateway_url.as_deref(), Some("https://arweave.net"));
    assert_eq!(c.filecoin_gateway, "https://gateway.lighthouse.storage/ipfs/");
    assert_eq!(c.max_upload_mb, 50);
    assert_eq!(default_max_upload_mb(), 50);
    assert_eq!(config(Some("8080")).port, 8080);
    assert_eq!(config(Some("not a port")).port, 3100);
    assert_eq!(config(Some("70000")).port, 3100);
    let c = AppConfig::from_vars(ConfigVars {
        host: Some(s("127.0.0.1")),
        port: Some(s("9000")),
        db_path: Some(s("/tmp/x.db")),
        admin_password: s("pw"),
        pinata_jwt: Some(s("jwt")),
        ipfs_api_url: Some(s("http://node:5001")),
        arweave_api_key: Some(s("ar")),
        lighthouse_api_key: Some(s("lh")),
        ipfs_gateway: Some(s("https://ipfs.example/ipfs/")),
        arweave_gateway_url: Some(s("https://ar.example")),
        filecoin_gateway: Some(s("https://fil.example/ipfs/")),
        max_upload_mb: Some(s("5")),
    });
    assert_eq!(c.host, "127.0.0.1");
    assert_eq!(c.db_path, "/tmp/x.db");
    assert_eq!(c.port, 9000);
    assert_eq!(c.pinata_jwt.as_deref(), Some("jwt"));
    assert_eq!(c.ipfs_api_url.as_deref(), Some("http://node:5001"));
    assert_eq!(c.arweave_api_key.as_deref(), Some("ar"));
    assert_eq!(c.lighthouse_api_key.as_deref(), Some("lh"));
    assert_eq!(c.ipfs_gateway, "https://ipfs.example/ipfs/");
    assert_eq!(c.arweave_gateway_url.as_deref(), Some("https://ar.example"));
    assert_eq!(c.filecoin_gateway, "https://fil.example/ipfs/");
    assert_eq!(c.max_upload_mb, 5);
    let c = AppConfig::from_vars(ConfigVars { max_upload_mb: Some(s("lots")), ..vars() });
    assert_eq!(c.max_upload_mb, 50);
}

#[test]
fn u64_text_parses_like_std() {
    for text in ["0", "50", "+50", "18446744073709551615", "18446744073709551616", "", "-5", "5 "] {
        assert_eq!(parse_u64(text), text.parse::<u64>().ok(), "text {:?}", text);
    }
}

#[test]
fn listen_addr_joins_host_and_port() {
    assert_eq!(config(None).listen_addr(), "0.0.0.0:3100");
    let c = AppConfig::from_vars(ConfigVars { host: Some(s("localhost")), port: Some(s("0")), ..vars() });
    assert_eq!(c.listen_addr(), "localhost:0");
}

#[test]
fn targets_listed() {
    let t = available_targets();
    assert_eq!(t.len(), 3);
    assert_eq!(t[0].id, "ipfs");
    assert_eq!(t[0].name, "IPFS");
    for target in &t {
        assert_eq!(target.status, TargetStatus::Active);
        assert!(StorageTarget::from_id(target.id).is_some());
    }
    assert_eq!(t[0].features, vec!["static-sites", "spa", "dapp-frontends", "pinning"]);
    assert_eq!(t[1].id, "arweave");
    assert_eq!(t[1].description, "Permanent storage — pay once, stored forever");
    assert_eq!(t[2].id, "filecoin");
    assert_eq!(t[2].features, vec!["large-files", "storage-deals", "data-archival"]);
}

#[test]
fn status_names_round_trip() {
    for st in [ProjectStatus::Created, ProjectStatus::Deploying, ProjectStatus::Live, ProjectStatus::Failed] {
        assert_eq!(ProjectStatus::from_name(st.as_str()), st);
    }
    assert_eq!(ProjectStatus::Deploying.as_str(), "deploying");
    assert_eq!(ProjectStatus::from_name("bogus"), ProjectStatus::Created);
    for st in [
        DeploymentStatus::Queued,
        DeploymentStatus::Uploading,
        DeploymentStatus::Pinning,
        DeploymentStatus::Live,
        DeploymentStatus::Failed,
    ] {
        assert_eq!(DeploymentStatus::from_name(st.as_str()), st);
    }
    assert_eq!(DeploymentStatus::from_name(""), DeploymentStatus::Queued);
}

fn request(git_url: Option<&str>, git_branch: Option<&str>) -> CreateProjectRequest {
    CreateProjectRequest {
        name: s("site"),
        target: s("ipfs"),
        domain: Some(s("example.com")),
        git_url: git_url.map(s),
        git_branch: git_branch.map(s),
    }
}

#[test]
fn new_project_from_upload_request() {
    let made = new_project(request(None, Some("dev")), 0x1a2b, 1700000000);
    let p = &made.project;
    assert_eq!(p.id, "proj_1a2b");
    assert_eq!(p.name, "site");
    assert_eq!(p.target, "ipfs");
    assert_eq!(p.domain.as_deref(), Some("example.com"));
    assert_eq!(p.source, ProjectSource::Upload);
    assert_eq!(p.status, ProjectStatus::Created);
    assert_eq!(p.created_at, "1700000000Z");
    assert_eq!(p.last_deployed, None);
    assert_eq!(made.row.source_type.as_deref(), Some("upload"));
    assert_eq!(made.row.git_url, Some(None));
    assert_eq!(made.row.git_branch, Some(None));
    assert_eq!(made.row.status.as_deref(), Some("created"));
}

#[test]
fn new_project_from_git_request() {
    let made = new_project(request(Some("https://git/x"), None), 1, 2);
    assert_eq!(
        made.project.source,
        ProjectSource::GitRepo { url: s("https://git/x"), branch: s("main") }
    );
    assert_eq!(made.row.source_type.as_deref(), Some("git_repo"));
    assert_eq!(made.row.git_branch, Some(Some(s("main"))));
    let made = new_project(request(Some("u"), Some("dev")), 1, 2);
    assert_eq!(made.project.source, ProjectSource::GitRepo { url: s("u"), branch: s("dev") });
}

#[test]
fn stored_project_reads_back() {
    for req in [request(None, None), request(Some("u"), None), request(Some("u"), Some("b")), request(None, Some("b"))] {
        let made = new_project(req, 0xabc, 42);
        assert_eq!(row_to_project(made.row), made.project);
    }
}

#[test]
fn row_with_unreadable_columns() {
    let row = ProjectRow {
        id: None,
        name: Some(s("n")),
        target: None,
        domain: None,
        source_type: Some(s("git_repo")),
        git_url: None,
        git_branch: Some(None),
        status: Some(s("live")),
        created_at: None,
        last_deployed: Some(Some(s("5Z"))),
    };
    let p = row_to_project(row);
    assert_eq!(
        p,
        Project {
            id: s(""),
            name: s("n"),
            target: s(""),
            domain: None,
            source: ProjectSource::GitRepo { url: s(""), branch: s("main") },
            status: ProjectStatus::Live,
            created_at: s(""),
            last_deployed: Some(s("5Z")),
        }
    );
}

#[test]
fn deployment_row_reads() {
    let d = row_to_deployment(DeploymentRow {
        id: Some(s("d1")),
        project_id: Some(s("p1")),
        target: Some(s("ipfs")),
        status: Some(s("live")),
        content_hash: Some(Some(s("Qm"))),
        gateway_url: Some(None),
        size_bytes: Some(Some(12)),
        created_at: Some(s("1Z")),
        completed_at: None,
    });
    assert_eq!(d.id, "d1");
    assert_eq!(d.status, DeploymentStatus::Live);
    assert_eq!(d.content_hash.as_deref(), Some("Qm"));
    assert_eq!(d.gateway_url, None);
    assert_eq!(d.size_bytes, Some(12));
    assert_eq!(d.completed_at, None);
}

#[test]
fn ids_and_timestamps() {
    assert_eq!(hex_id(1700000000123456789), "17979cfe3d85cd15");
    assert_eq!(now_iso(0), "0Z");
    assert_eq!(now_iso(1700000000), "1700000000Z");
}

#[test]
fn tokens() {
    assert_eq!(generate_token(1700000000123456789), "17979cfe3d85cd15be6dcd28c1e2f900");
    assert_eq!(generate_token(0), "014057b7ef767814f");
    assert_eq!(generate_token((1u128 << 64) + 5), "10000000000000005cd9f40617652fd30");
}

#[test]
fn password_check() {
    let admin = s("hunter2");
    assert!(check_password(&LoginRequest { password: s("hunter2") }, &admin).is_ok());
    let err = check_password(&LoginRequest { password: s("hunter3") }, &admin).unwrap_err();
    assert_eq!(err.0, 401);
    assert_eq!(err.1.error, "Invalid password");
}

#[test]
fn login_replies() {
    let ok = login_reply::<()>(s("tok"), Ok(())).unwrap();
    assert_eq!(ok.token, "tok");
    let err = login_reply(s("tok"), Err("db down")).unwrap_err();
    assert_eq!(err.0, 500);
    assert_eq!(err.1.error, "Internal server error");
}

#[test]
fn bearer_tokens() {
    assert_eq!(bearer_token(Some("Bearer abc")).unwrap(), "abc");
    assert_eq!(bearer_token(Some("Bearer ")).unwrap(), "");
    for bad in [None, Some("bearer abc"), Some("Basic abc"), Some("Bearer"), Some("")] {
        let err = bearer_token(bad).unwrap_err();
        assert_eq!(err.0, 401);
        assert_eq!(err.1.error, "Missing or invalid Authorization header");
    }
    assert_eq!(strip_prefix("abcdef", "abc").as_deref(), Some("def"));
    assert_eq!(strip_prefix("ab", "abc"), None);
}

#[test]
fn session_checks() {
    assert!(session_check::<()>(Ok(true)).is_ok());
    for v in [Ok(false), Err(())] {
        let err = session_check(v).unwrap_err();
        assert_eq!(err.0, 401);
        assert_eq!(err.1.error, "Invalid or expired session");
    }
}

fn sample_project() -> Project {
    new_project(request(None, None), 7, 8).project
}

#[test]
fn project_route_replies() {
    assert_eq!(list_projects::<()>(Ok(vec![sample_project()])).unwrap().len(), 1);
    assert_eq!(list_projects::<&str>(Err("x")).unwrap_err().0, 500);
    assert_eq!(get_project::<()>(Ok(Some(sample_project()))).unwrap(), sample_project());
    let nf = get_project::<()>(Ok(None)).unwrap_err();
    assert_eq!(nf.0, 404);
    assert_eq!(nf.1.error, "Project not found");
    assert_eq!(get_project::<&str>(Err("x")).unwrap_err().1.error, "Internal server error");
    assert_eq!(create_project::<()>(Ok(sample_project())).unwrap().0, 201);
    assert_eq!(create_project::<&str>(Err("x")).unwrap_err().0, 500);
    assert_eq!(delete_project::<()>(Ok(true)).unwrap(), 204);
    assert_eq!(delete_project::<()>(Ok(false)).unwrap_err().0, 404);
    assert_eq!(delete_project::<&str>(Err("x")).unwrap_err().0, 500);
    assert_eq!(list_deployments::<&str>(Err("x")).unwrap_err().0, 500);
    assert_eq!(list_deployments::<()>(Ok(vec![])).unwrap().len(), 0);
}

#[test]
fn health_report() {
    let c = AppConfig::from_vars(ConfigVars { ipfs_api_url: Some(s("http://n")), ..vars() });
    let h = health(&c, "1.2.3");
    assert_eq!(h.status, "ok");
    assert_eq!(h.version, "1.2.3");
    assert!(h.ipfs_configured);
    assert!(h.arweave_configured);
}

#[test]
fn service_addresses() {
    let ipfs = IpfsService::new(s("http://127.0.0.1:5001"), s("https://ipfs.io/ipfs/"));
    assert_eq!(ipfs.id_url(), "http://127.0.0.1:5001/api/v0/id");
    assert_eq!(ipfs.add_url(), "http://127.0.0.1:5001/api/v0/add");
    assert_eq!(ipfs.pin_url("Qm1"), "http://127.0.0.1:5001/api/v0/pin/add?arg=Qm1");
    assert_eq!(ipfs.gateway_url("Qm1"), "https://ipfs.io/ipfs/Qm1");
    assert_eq!(PinataService::gateway_url("Qm1"), "https://gateway.pinata.cloud/ipfs/Qm1");
    assert_eq!(PinataService::new(s("jwt")).jwt(), "jwt");
    assert_eq!(
        api_error_message("Pinata", "400 Bad Request", "nope"),
        "Pinata API error 400 Bad Request: nope"
    );
    assert_eq!(gateway_url_for(StorageTarget::Arweave, "https://arweave.net", "tx1"), "https://arweave.net/tx1");
    assert_eq!(gateway_url_for(StorageTarget::Ipfs, "https://c/ipfs/", "Qm"), "https://c/ipfs/Qm");
    assert_eq!(gateway_url_for(StorageTarget::Filecoin, "https://l/ipfs/", "ba"), "https://l/ipfs/ba");
}

fn reply(action: DeployAction) -> Result<(String, String, String, u64), (u16, String)> {
    match action {
        DeployAction::Respond(Ok(r)) => Ok((r.deployment_id, r.cid, r.gateway_url, r.size_bytes)),
        DeployAction::Respond(Err((code, body))) => Err((code, body.error)),
        _ => panic!("not a reply"),
    }
}

fn settings(ipfs: bool, arweave: bool, filecoin: bool) -> DeploySettings {
    DeploySettings::from_config(&AppConfig::from_vars(ConfigVars {
        pinata_jwt: if ipfs { Some(s("jwt")) } else { None },
        arweave_api_key: if arweave { Some(s("ar")) } else { None },
        lighthouse_api_key: if filecoin { Some(s("lh")) } else { None },
        ..vars()
    }))
}

/// Runs the steps on `events`; the actions before the reply, and the reply.
fn run(
    settings: DeploySettings,
    events: Vec<DeployEvent>,
) -> (Vec<DeployAction>, Result<(String, String, String, u64), (u16, String)>) {
    let (mut step, action) = DeployStep::start(s("p1"), settings);
    assert!(matches!(action, DeployAction::LookupProject { ref project_id } if project_id == "p1"));
    let mut actions = Vec::new();
    for e in events {
        let turn = step.step(e);
        match turn.next {
            Some(n) => {
                step = n;
                actions.push(turn.action);
            }
            None => return (actions, reply(turn.action)),
        }
    }
    panic!("no reply")
}

fn happy(target: &str, name: Option<&str>) -> Vec<DeployEvent> {
    vec![
        DeployEvent::ProjectLookup(Ok(Some(s(target)))),
        DeployEvent::Field(Ok(Some(name.map(s)))),
        DeployEvent::Bytes(Ok(1024)),
        DeployEvent::Recorded(Ok(s("dep1"))),
        DeployEvent::Done,
        DeployEvent::Uploaded(Ok((s("QmX"), 42))),
        DeployEvent::Done,
        DeployEvent::Now(1700000000),
        DeployEvent::Done,
    ]
}

#[test]
fn deploy_happy_path_ipfs() {
    let (actions, r) = run(settings(true, false, false), happy("ipfs", None));
    assert!(matches!(actions[0], DeployAction::ReadField));
    assert!(matches!(actions[1], DeployAction::ReadBytes));
    assert!(matches!(&actions[2], DeployAction::CreateDeployment { project_id, target } if project_id == "p1" && target == "ipfs"));
    assert!(matches!(&actions[3], DeployAction::SetStatus { status: ProjectStatus::Deploying, last_deployed: None, .. }));
    assert!(matches!(&actions[4], DeployAction::UploadFile { storage: StorageTarget::Ipfs, filename } if filename == "site.tar.gz"));
    assert!(matches!(&actions[5], DeployAction::CompleteDeployment { gateway_url, size: 42, .. } if gateway_url == "https://cloudflare-ipfs.com/ipfs/QmX"));
    assert!(matches!(actions[6], DeployAction::ReadClock));
    assert!(matches!(&actions[7], DeployAction::SetStatus { status: ProjectStatus::Live, last_deployed: Some(t), .. } if t == "1700000000Z"));
    assert_eq!(r, Ok((s("dep1"), s("QmX"), s("https://cloudflare-ipfs.com/ipfs/QmX"), 42)));
}

#[test]
fn deploy_goes_to_the_projects_target() {
    let (actions, r) = run(settings(false, true, false), happy("arweave", Some("a.zip")));
    assert!(matches!(&actions[4], DeployAction::UploadFile { storage: StorageTarget::Arweave, filename } if filename == "a.zip"));
    assert_eq!(r, Ok((s("dep1"), s("QmX"), s("https://arweave.net/QmX"), 42)));
    let (actions, r) = run(settings(false, false, true), happy("filecoin", None));
    assert!(matches!(&actions[4], DeployAction::UploadFile { storage: StorageTarget::Filecoin, .. }));
    assert_eq!(r, Ok((s("dep1"), s("QmX"), s("https://gateway.lighthouse.storage/ipfs/QmX"), 42)));
}

#[test]
fn deploy_refusals() {
    let lookup = |t: Option<&str>| vec![DeployEvent::ProjectLookup(Ok(t.map(s)))];
    assert_eq!(run(settings(true, true, true), lookup(None)).1, Err((404, s("Project not found"))));
    assert_eq!(run(settings(false, false, false), lookup(None)).1, Err((404, s("Project not found"))));
    assert_eq!(
        run(settings(true, true, true), vec![DeployEvent::ProjectLookup(Err(()))]).1,
        Err((500, s("Internal server error")))
    );
    assert_eq!(
        run(settings(false, true, true), lookup(Some("s3"))).1,
        Err((503, s("IPFS deployment not configured. Set PINATA_JWT in environment.")))
    );
    assert_eq!(
        run(settings(false, true, true), lookup(Some("ipfs"))).1,
        Err((503, s("IPFS deployment not configured. Set PINATA_JWT in environment.")))
    );
    assert_eq!(
        run(settings(true, false, true), lookup(Some("arweave"))).1,
        Err((503, s("Arweave deployment not configured. Set ARWEAVE_API_KEY in environment.")))
    );
    assert_eq!(
        run(settings(true, true, false), lookup(Some("filecoin"))).1,
        Err((503, s("Filecoin deployment not configured. Set LIGHTHOUSE_API_KEY in environment.")))
    );
    let found = || DeployEvent::ProjectLookup(Ok(Some(s("ipfs"))));
    assert_eq!(
        run(settings(true, false, false), vec![found(), DeployEvent::Field(Err(s("boom")))]).1,
        Err((400, s("Failed to read upload: boom")))
    );
    assert_eq!(
        run(settings(true, false, false), vec![found(), DeployEvent::Field(Ok(None))]).1,
        Err((400, s("No file uploaded")))
    );
    assert_eq!(
        run(settings(true, false, false), vec![found(), DeployEvent::Field(Ok(Some(None))), DeployEvent::Bytes(Err(s("cut")))]).1,
        Err((400, s("Failed to read file data: cut")))
    );
    assert_eq!(
        run(settings(true, false, false), vec![found(), DeployEvent::Field(Ok(Some(None))), DeployEvent::Bytes(Ok(0)), DeployEvent::Recorded(Err(()))]).1,
        Err((500, s("Internal server error")))
    );
    assert_eq!(run(settings(true, false, false), vec![DeployEvent::Done]).1, Err((500, s("Internal server error"))));
}

#[test]
fn deploy_unknown_target_goes_to_ipfs() {
    let (actions, r) = run(settings(true, false, false), happy("s3", None));
    assert!(matches!(&actions[2], DeployAction::CreateDeployment { target, .. } if target == "s3"));
    assert!(matches!(&actions[4], DeployAction::UploadFile { storage: StorageTarget::Ipfs, .. }));
    assert_eq!(r, Ok((s("dep1"), s("QmX"), s("https://cloudflare-ipfs.com/ipfs/QmX"), 42)));
    assert_eq!(StorageTarget::for_target("s3"), StorageTarget::Ipfs);
    assert_eq!(StorageTarget::for_target("filecoin"), StorageTarget::Filecoin);
}

#[test]
fn deploy_size_limit() {
    let found = || DeployEvent::ProjectLookup(Ok(Some(s("ipfs"))));
    let limit = 50 * 1024 * 1024;
    let (actions, r) = run(
        settings(true, false, false),
        vec![found(), DeployEvent::Field(Ok(Some(None))), DeployEvent::Bytes(Ok(limit + 1))],
    );
    assert_eq!(r, Err((413, s("Upload exceeds the limit of 50 MB"))));
    assert_eq!(actions.len(), 2);
    let (actions, _) = run(
        settings(true, false, false),
        vec![found(), DeployEvent::Field(Ok(Some(None))), DeployEvent::Bytes(Ok(limit)), DeployEvent::Recorded(Err(()))],
    );
    assert!(matches!(actions[2], DeployAction::CreateDeployment { .. }));
}

#[test]
fn deploy_failed_upload() {
    let mut events = happy("ipfs", Some("site.zip"));
    events.truncate(5);
    events.push(DeployEvent::Uploaded(Err(())));
    events.push(DeployEvent::Done);
    events.push(DeployEvent::Done);
    let (actions, r) = run(settings(true, false, false), events);
    assert!(matches!(&actions[4], DeployAction::UploadFile { filename, .. } if filename == "site.zip"));
    assert!(matches!(&actions[5], DeployAction::FailDeployment { deployment_id } if deployment_id == "dep1"));
    assert!(matches!(&actions[6], DeployAction::SetStatus { project_id, status: ProjectStatus::Failed, last_deployed: None } if project_id == "p1"));
    assert_eq!(r, Err((500, s("Internal server error"))));
}

#[test]
fn project_ids_differ_by_instant() {
    let a = new_project(request(None, None), 1_700_000_000_000_000_001, 1).project.id;
    let b = new_project(request(None, None), 1_700_000_000_000_000_002, 1).project.id;
    assert_ne!(a, b);
    assert_eq!(a, format!("proj_{:x}", 1_700_000_000_000_000_001u128));
}

#[test]
fn new_deployment_rows() {
    let row = new_deployment_row(s("p1"), s("ipfs"), 0xbeef, 12);
    assert_eq!(row.id.as_deref(), Some("dep_beef"));
    assert_eq!(row.status.as_deref(), Some("queued"));
    assert_eq!(row.created_at.as_deref(), Some("12Z"));
    let d = row_to_deployment(row);
    assert_eq!(d.status, DeploymentStatus::Queued);
    assert_eq!(d.project_id, "p1");
    assert_eq!(d.content_hash, None);
    assert_ne!(new_deployment_row(s("p"), s("t"), 1, 0).id, new_deployment_row(s("p"), s("t"), 2, 0).id);
}
