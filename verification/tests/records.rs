use labuh::backend::models::domain::DomainProvider;
use labuh::backend::services::dns_provider::{
    provider_for, CPanelProvider, CloudflareConfig, CloudflareProvider, DnsProvider, ProviderChoice,
};
use labuh::backend::usecase::deployment_log::DeploymentLogUsecase;
use labuh::backend::usecase::environment::EnvironmentUsecase;
use labuh::backend::usecase::resource::ResourceUsecase;
use labuh::backend::usecase::team::{TeamRole, TeamUsecase};
use labuh::backend::usecase::template::TemplateUsecase;
use labuh::env::{env_map_for_container, merge_env, StackEnvVar};
use labuh::error::AppError;
use labuh::server::models::project::{CreateProject, UpdateProject};
use labuh::server::services::environment::{EnvironmentService, StackEnvVarResponse};
use labuh::server::services::project::ProjectService;
use labuh::server::webhooks::WebhookLogService;

fn var(container: &str, key: &str, value: &str, secret: bool) -> StackEnvVar {
    StackEnvVar {
        id: format!("{}-{}", container, key),
        stack_id: "s1".to_string(),
        container_name: container.to_string(),
        key: key.to_string(),
        value: value.to_string(),
        is_secret: secret,
        created_at: "t0".to_string(),
        updated_at: "t0".to_string(),
    }
}

fn is_uuid(s: &str) -> bool {
    s.len() == 36 && s.chars().enumerate().all(|(i, c)| {
        if i == 8 || i == 13 || i == 18 || i == 23 { c == '-' } else { c.is_ascii_hexdigit() && !c.is_ascii_uppercase() }
    })
}

#[test]
fn container_vars_override_global_vars() {
    let vars = vec![var("", "A", "1", false), var("", "B", "2", false), var("web", "A", "3", false), var("db", "C", "4", false)];
    let mut env = env_map_for_container(&vars, "web");
    env.sort();
    assert_eq!(env, vec![("A".to_string(), "3".to_string()), ("B".to_string(), "2".to_string())]);
}

#[test]
fn stored_vars_are_merged_into_declared_env() {
    let declared = Some(vec!["A=1".to_string(), "X=9".to_string()]);
    let vars = vec![("A".to_string(), "2".to_string()), ("B".to_string(), "3".to_string())];
    assert_eq!(merge_env(declared, &vars), Some(vec!["A=2".to_string(), "X=9".to_string(), "B=3".to_string()]));
    assert_eq!(merge_env(None, &Vec::new()), None);
    assert_eq!(merge_env(None, &vars), Some(vec!["A=2".to_string(), "B=3".to_string()]));
}

#[test]
fn secret_values_are_masked() {
    let shown = StackEnvVarResponse::from_var(var("web", "TOKEN", "hunter2", true));
    assert_eq!(shown.value, "********");
    assert!(shown.is_secret);
    let plain = StackEnvVarResponse::from_var(var("web", "PORT", "80", false));
    assert_eq!(plain.value, "80");
}

#[test]
fn setting_a_var_updates_or_inserts() {
    let svc = EnvironmentService::new();
    let existing = var("web", "A", "1", false);
    match svc.set(Some(&existing), "s1", "web", "A", "2", true) {
        labuh::server::services::environment::EnvWrite::Update { id, value, is_secret, .. } => {
            assert_eq!(id, "web-A");
            assert_eq!(value, "2");
            assert!(is_secret);
        },
        other => panic!("unexpected {:?}", other),
    }
    match svc.set(None, "s1", "web", "A", "2", false) {
        labuh::server::services::environment::EnvWrite::Insert(v) => {
            assert!(is_uuid(&v.id));
            assert_eq!(v.key, "A");
            assert_eq!(v.created_at, v.updated_at);
        },
        other => panic!("unexpected {:?}", other),
    }
    assert_eq!(
        svc.delete(0, "web", "A"),
        Err(AppError::NotFound("Environment variable 'A' for container 'web' not found".to_string()))
    );
    assert_eq!(svc.delete(1, "web", "A"), Ok(()));
}

#[test]
fn bulk_set_makes_one_record_per_var() {
    let env = EnvironmentUsecase::new();
    let vars = vec![("A".to_string(), "1".to_string(), false), ("B".to_string(), "2".to_string(), true)];
    let recs = env.bulk_set("s1", "web", &vars);
    assert_eq!(recs.len(), 2);
    assert_eq!(recs[1].key, "B");
    assert!(recs[1].is_secret);
    assert!(is_uuid(&recs[0].id));
    assert_ne!(recs[0].id, recs[1].id);
}

#[test]
fn deployment_logs_start_pending() {
    let logs = DeploymentLogUsecase::new();
    let log = logs.create_log("s1", "webhook");
    assert!(is_uuid(&log.id));
    assert_eq!(log.status, "pending");
    assert_eq!(log.logs, None);
    let done = logs.update_status(log, "success", Some("ok"));
    assert_eq!(done.status, "success");
    assert_eq!(done.logs, Some("ok".to_string()));
    assert!(done.finished_at.is_some());
}

#[test]
fn webhook_logs_complete_with_status() {
    let svc = WebhookLogService::new();
    let log = svc.create("s1", "webhook", Some("{}"));
    assert_eq!(log.status, "pending");
    let failed = svc.complete(log, false, None);
    assert_eq!(failed.status, "failed");
    assert_eq!(svc.list(None), 50);
    assert_eq!(svc.list(Some(5)), 5);
}

#[test]
fn dns_provider_choice() {
    assert_eq!(
        provider_for(DomainProvider::Custom, None).unwrap_err(),
        AppError::BadRequest("Custom provider does not support automated DNS".to_string())
    );
    assert_eq!(
        provider_for(DomainProvider::Cloudflare, None).unwrap_err(),
        AppError::NotFound("Cloudflare configuration not found for team".to_string())
    );
    assert_eq!(
        provider_for(DomainProvider::Cloudflare, Some(Err("missing field".to_string()))).unwrap_err(),
        AppError::Internal("Invalid Cloudflare config: missing field".to_string())
    );
    let cfg = CloudflareConfig { api_token: "tok".to_string(), zone_id: "z1".to_string() };
    match provider_for(DomainProvider::Cloudflare, Some(Ok(cfg))) {
        Ok(ProviderChoice::Cloudflare { api_token, zone_id }) => {
            assert_eq!(api_token, "tok");
            assert_eq!(zone_id, "z1");
        },
        other => panic!("unexpected {:?}", other),
    }
    assert!(matches!(provider_for(DomainProvider::CPanel, None), Ok(ProviderChoice::CPanel)));
    let cpanel = CPanelProvider {};
    assert_eq!(
        cpanel.create_record("a.example.com", "1.2.3.4"),
        Err(AppError::Internal("cPanel provider not yet implemented".to_string()))
    );
}

#[test]
fn cloudflare_replies() {
    let cf = CloudflareProvider::new("tok".to_string(), "z1".to_string());
    assert_eq!(cf.records_url(), "https://api.cloudflare.com/client/v4/zones/z1/dns_records");
    assert_eq!(cf.record_url("r9"), "https://api.cloudflare.com/client/v4/zones/z1/dns_records/r9");
    assert_eq!(CloudflareProvider::record_type(true), "A");
    assert_eq!(CloudflareProvider::record_type(false), "CNAME");
    let ok = cf.create_record(Ok((true, "200 OK".to_string(), "{\"result\":{\"id\":\"rec1\"}}".to_string())));
    assert_eq!(ok, Ok("rec1".to_string()));
    let missing = cf.create_record(Ok((true, "200 OK".to_string(), "{\"result\":{}}".to_string())));
    assert_eq!(missing, Err(AppError::Internal("Cloudflare response missing record ID".to_string())));
    let bad = cf.create_record(Ok((false, "403 Forbidden".to_string(), "denied".to_string())));
    assert_eq!(bad, Err(AppError::Internal("Cloudflare API error (403 Forbidden): denied".to_string())));
    let down = cf.delete_record(Err("timeout".to_string()));
    assert_eq!(down, Err(AppError::Internal("Cloudflare API error: timeout".to_string())));
    assert_eq!(cf.delete_record(Ok((true, "200 OK".to_string(), String::new()))), Ok(()));
    let garbage = cf.create_record(Ok((true, "200 OK".to_string(), "not json".to_string())));
    assert!(matches!(garbage, Err(AppError::Internal(m)) if m.starts_with("Failed to parse Cloudflare response: ")));
}

#[test]
fn metrics_windows() {
    assert_eq!(ResourceUsecase::window_of("1h"), 1);
    assert_eq!(ResourceUsecase::window_of("6h"), 6);
    assert_eq!(ResourceUsecase::window_of("24h"), 24);
    assert_eq!(ResourceUsecase::window_of("7d"), 168);
    assert_eq!(ResourceUsecase::window_of("30d"), 720);
    assert_eq!(ResourceUsecase::window_of("bogus"), 1);
    let res = ResourceUsecase::new();
    assert_eq!(res.get_metrics(None, "1h"), Err(AppError::Forbidden("Access denied".to_string())));
    assert!(res.get_metrics(Some(TeamRole::Viewer), "7d").is_ok());
    assert_eq!(ResourceUsecase::window_start("24h", 1_700_000_000), 1_700_000_000 - 86_400);
    assert_eq!(ResourceUsecase::metrics_since("1h", 3_600), Ok("1970-01-01T00:00:00+00:00".to_string()));
    assert!(res.update_limits(Some(TeamRole::Developer)).is_ok());
}

#[test]
fn templates_are_found_or_missing() {
    let t = TemplateUsecase::new();
    assert_eq!(t.get_template("x", Some(7)), Ok(7));
    assert_eq!(
        t.get_template::<i32>("wordpress", None),
        Err(AppError::NotFound("Template wordpress not found".to_string()))
    );
}

#[test]
fn team_roles_and_permissions() {
    let teams = TeamUsecase::new();
    assert!(teams.verify_permission(Some(TeamRole::Owner), TeamRole::Admin).is_ok());
    assert_eq!(
        teams.verify_permission(Some(TeamRole::Developer), TeamRole::Admin),
        Err(AppError::Forbidden("Access denied".to_string()))
    );
    assert!(teams.delete_team(Some(TeamRole::Admin)).is_err());
    assert!(teams.get_members(Some(TeamRole::Viewer)).is_ok());
    let (team, role) = teams.create_team("core");
    assert_eq!(team.name, "core");
    assert_eq!(role, TeamRole::Owner);
    assert_eq!(
        teams.remove_member("u2", "u1", Some(TeamRole::Admin), Some(TeamRole::Owner)),
        Err(AppError::BadRequest("Cannot remove the owner of the team".to_string()))
    );
    assert_eq!(
        teams.update_member_role("u1", "u1", TeamRole::Viewer, Some(TeamRole::Admin), Some(TeamRole::Admin)),
        Err(AppError::BadRequest("Cannot change your own role".to_string()))
    );
    assert_eq!(
        teams.update_member_role("u2", "u1", TeamRole::Admin, Some(TeamRole::Admin), Some(TeamRole::Viewer)),
        Err(AppError::Forbidden("Cannot assign a role equal to or higher than your own".to_string()))
    );
    assert!(teams.update_member_role("u2", "u1", TeamRole::Developer, Some(TeamRole::Admin), Some(TeamRole::Viewer)).is_ok());
}

#[test]
fn projects_get_slugs_and_keep_unchanged_fields() {
    let svc = ProjectService::new();
    let input = CreateProject {
        name: "My App".to_string(),
        description: None,
        image: Some("nginx".to_string()),
        port: Some(80),
        env_vars: None,
        domains: Some(vec!["a.example.com".to_string()]),
    };
    let conflict = svc.create_project(
        "u1",
        CreateProject { name: "My App".to_string(), description: None, image: None, port: None, env_vars: None, domains: None },
        1,
    );
    assert_eq!(conflict, Err(AppError::Conflict("Project with slug 'my-app' already exists".to_string())));
    let p = svc.create_project("u1", input, 0).unwrap();
    assert_eq!(p.slug, "my-app");
    assert_eq!(p.status, "stopped");
    assert_eq!(p.domains, Some("[\"a.example.com\"]".to_string()));
    assert_eq!(p.webhook_token.as_ref().map(|t| t.len()), Some(32));
    let token = p.webhook_token.clone().unwrap();
    let kept = svc.update_project(
        p.clone(),
        UpdateProject { name: None, description: None, image: None, port: None, env_vars: None, domains: None },
    );
    assert_eq!(kept.name, p.name);
    assert_eq!(kept.image, p.image);
    assert_eq!(kept.domains, p.domains);
    let renamed = svc.update_project(
        p.clone(),
        UpdateProject { name: Some("Other".to_string()), description: None, image: None, port: Some(8080), env_vars: None, domains: None },
    );
    assert_eq!(renamed.name, "Other");
    assert_eq!(renamed.slug, "my-app");
    assert_eq!(renamed.port, Some(8080));
    assert_eq!(svc.validate_webhook_token(Some(p.clone()), &token), Ok(p.clone()));
    assert_eq!(svc.validate_webhook_token(Some(p), "wrong"), Err(AppError::Unauthorized));
    assert_eq!(svc.validate_webhook_token(None, "x"), Err(AppError::NotFound("Project not found".to_string())));
    assert_eq!(svc.delete_project(0), Err(AppError::NotFound("Project not found".to_string())));
}
