use labuh::backend::services::auth::verify_password;
use labuh::backend::services::environment::{EnvVarItem, EnvWrite, EnvironmentService as BackendEnv, StackEnvVarResponse};
use labuh::backend::usecase::dns::DnsUsecase;
use labuh::backend::usecase::scheduler::AutomationScheduler;
use labuh::backend::usecase::stack::StackUsecase;
use labuh::backend::usecase::stack_git::{
    BackupEnvVar, GitAction, RestoreAction, RestoreEvent, StackBackup, StackRecord,
};
use labuh::backend::usecase::team::{NewMember, Team, TeamRole, TeamUsecase};
use labuh::env::StackEnvVar;
use labuh::error::AppError;
use labuh::health::{stack_health, ContainerHealth};
use labuh::server::services::network::NetworkService;

fn record(cron: Option<&str>) -> StackRecord {
    StackRecord {
        id: "s1".to_string(),
        name: "shop".to_string(),
        user_id: "u1".to_string(),
        team_id: "t1".to_string(),
        compose_content: None,
        status: "running".to_string(),
        webhook_token: None,
        cron_schedule: cron.map(|c| c.to_string()),
        health_check_path: None,
        health_check_interval: 30,
        last_stable_images: None,
        git_url: None,
        git_branch: None,
        last_commit_hash: None,
        created_at: "t0".to_string(),
        updated_at: "t0".to_string(),
    }
}

fn health(state: &str) -> ContainerHealth {
    ContainerHealth { id: state.to_string(), name: format!("/{}", state), state: state.to_string(), status: String::new() }
}

#[test]
fn health_counts_partition_the_containers() {
    let h = stack_health(vec![health("running"), health("exited"), health("created"), health("restarting")]);
    assert_eq!(h.total, 4);
    assert_eq!(h.running, 1);
    assert_eq!(h.stopped, 2);
    assert_eq!(h.unhealthy, 1);
    assert_eq!(h.running + h.stopped + h.unhealthy, h.total);
    assert_eq!(h.status, "partial");
    assert_eq!(stack_health(Vec::new()).status, "empty");
    assert_eq!(stack_health(vec![health("running")]).status, "healthy");
    assert_eq!(stack_health(vec![health("exited")]).status, "stopped");
}

#[test]
fn scheduler_picks_due_stacks_only() {
    let stacks = vec![record(Some("0 * * * * *")), record(None), record(Some(""))];
    let found = vec![Some(Some(100)), None, None];
    assert_eq!(AutomationScheduler::jobs_due(&stacks, &found, 150), vec!["s1".to_string()]);
    let later = vec![Some(Some(200)), None, None];
    assert!(AutomationScheduler::jobs_due(&stacks, &later, 150).is_empty());
    let occurrences = AutomationScheduler::find_occurrences(&stacks, 1_700_000_000);
    assert_eq!(occurrences.len(), 3);
    assert!(occurrences[1].is_none() && occurrences[2].is_none());
    assert_eq!(occurrences[0], Some(Some(1_699_999_980)));
    let scheduler = AutomationScheduler::new();
    assert!(scheduler.check_and_run_jobs(&vec![record(Some("not a cron")), record(None)]).is_empty());
    assert_eq!(scheduler.check_and_run_jobs(&vec![record(Some("* * * * * *"))]), vec!["s1".to_string()]);
}

#[test]
fn backend_env_writes() {
    let env = BackendEnv::new();
    let items = vec![
        EnvVarItem { key: "A".to_string(), value: "1".to_string() },
        EnvVarItem { key: "B".to_string(), value: "2".to_string() },
    ];
    let writes = env.bulk_set("s1", "web", &items, vec![Some("id-a".to_string()), None]);
    assert!(matches!(&writes[0], EnvWrite::Update { id, value, .. } if id == "id-a" && value == "1"));
    assert!(matches!(&writes[1], EnvWrite::Insert { key, value, .. } if key == "B" && value == "2"));
    assert_eq!(env.get(None).unwrap_err(), AppError::NotFound("Environment variable not found".to_string()));
    let v = StackEnvVar {
        id: "x".to_string(),
        stack_id: "s1".to_string(),
        container_name: "web".to_string(),
        key: "K".to_string(),
        value: "secret".to_string(),
        is_secret: true,
        created_at: "t0".to_string(),
        updated_at: "t1".to_string(),
    };
    let shown = StackEnvVarResponse::from(v);
    assert_eq!(shown.value, "secret");
    assert_eq!(shown.updated_at, "t1");
}

#[test]
fn backups_keep_every_variable() {
    let stacks = StackUsecase::new();
    let vars = vec![StackEnvVar {
        id: "x".to_string(),
        stack_id: "s1".to_string(),
        container_name: "web".to_string(),
        key: "K".to_string(),
        value: "V".to_string(),
        is_secret: true,
        created_at: "t0".to_string(),
        updated_at: "t0".to_string(),
    }];
    let backup = stacks.get_stack_backup(record(None), vars);
    assert_eq!(backup.name, "shop");
    assert_eq!(backup.compose_content, "");
    assert_eq!(backup.env_vars.len(), 1);
    assert_eq!(backup.env_vars[0].value, "V");
    assert!(backup.env_vars[0].is_secret);
}

#[test]
fn restoring_sets_variables_then_redeploys() {
    let stacks = StackUsecase::new();
    let backup = StackBackup {
        name: "shop".to_string(),
        compose_content: "services: {}".to_string(),
        env_vars: vec![BackupEnvVar { container_name: "web".to_string(), key: "K".to_string(), value: "V".to_string(), is_secret: false }],
    };
    let (flow, action) = stacks.restore_stack(backup, "u1");
    assert!(matches!(action, RestoreAction::CreateStack { ref name, .. } if name == "shop"));
    let (flow, action) = flow.step(RestoreEvent::Stack(Ok(record(None))));
    assert!(matches!(action, RestoreAction::SetVar(ref v) if v.stack_id == "s1" && v.key == "K" && v.value == "V"));
    let (flow, action) = flow.step(RestoreEvent::Step(Ok(())));
    assert!(matches!(action, RestoreAction::Redeploy { ref id } if id == "s1"));
    let (flow, action) = flow.step(RestoreEvent::Step(Ok(())));
    assert!(matches!(action, RestoreAction::GetStack { .. }));
    let (_, action) = flow.step(RestoreEvent::Stack(Ok(record(None))));
    assert!(matches!(action, RestoreAction::Finish(Ok(_))));
}

#[test]
fn stack_creation_needs_team_membership() {
    let stacks = StackUsecase::new();
    assert_eq!(
        stacks.create_stack(None, "shop", "services: {}", "u1", "t1").unwrap_err(),
        AppError::Forbidden("Access denied".to_string())
    );
    let r = stacks.create_stack(Some(TeamRole::Developer), "shop", "services: {}", "u1", "t1").unwrap();
    assert_eq!(r.status, "creating");
    assert_eq!(r.health_check_interval, 30);
    assert_eq!(r.team_id, "t1");
    assert_eq!(r.webhook_token.as_ref().map(|t| t.len()), Some(32));
    let (_, refused) = stacks.create_stack_from_git(None, "shop", "https://x/y.git", "main", "compose.yml", "u1", "t1");
    assert!(matches!(refused, GitAction::Finish(Err(AppError::Forbidden(_)))));
    let (flow, action) = stacks.create_stack_from_git(Some(TeamRole::Owner), "shop", "https://x/y.git", "dev", "compose.yml", "u1", "t1");
    assert!(matches!(action, GitAction::CloneOrPull { ref branch, ref dir, .. } if branch == "dev" && *dir == format!("backend/data/git/{}", flow.id)));
    assert_eq!(stacks.get_stack(record(None), None).unwrap_err(), AppError::Forbidden("Access denied".to_string()));
    assert_eq!(stacks.regenerate_webhook_token(Some(TeamRole::Viewer)).unwrap().len(), 32);
    let auto = stacks.update_automation(Some(TeamRole::Admin), Some("0 0 * * * *".to_string()), None, 60).unwrap();
    assert_eq!(auto.health_check_interval, 60);
}

#[test]
fn teams_of_a_user_need_a_role_each() {
    let teams = TeamUsecase::new();
    let team = |id: &str| Team { id: id.to_string(), name: id.to_string(), created_at: "t0".to_string(), updated_at: "t0".to_string() };
    let ok = teams.get_user_teams(vec![team("a"), team("b")], &vec![Some(TeamRole::Owner), Some(TeamRole::Viewer)]).unwrap();
    assert_eq!(ok.len(), 2);
    assert_eq!(ok[1].role, TeamRole::Viewer);
    let missing = teams.get_user_teams(vec![team("a"), team("b")], &vec![Some(TeamRole::Owner), None]);
    assert_eq!(missing.unwrap_err(), AppError::NotFound("Role not found for team member".to_string()));
}

#[test]
fn members_added_by_credentials() {
    let teams = TeamUsecase::new();
    assert_eq!(
        teams.add_member_with_credentials(Some(TeamRole::Developer), None, "Bob", "bob@example.com", "pw").unwrap_err(),
        AppError::Forbidden("Access denied".to_string())
    );
    match teams.add_member_with_credentials(Some(TeamRole::Admin), None, "Bob", "bob@example.com", "pw").unwrap() {
        NewMember::Created(u) => {
            assert_eq!(u.email, "bob@example.com");
            assert_eq!(u.role, "user");
            assert_eq!(verify_password("pw", &u.password_hash), Ok(()));
        },
        other => panic!("unexpected {:?}", other),
    }
}

#[test]
fn dns_configs_are_recorded() {
    let dns = DnsUsecase::new();
    let c = dns.save_config("t1", "Cloudflare", "{\"api_token\":\"x\"}");
    assert_eq!(c.team_id, "t1");
    assert_eq!(c.config, "{\"api_token\":\"x\"}");
    assert_eq!(c.created_at, c.updated_at);
}

#[test]
fn platform_network_setup() {
    let net = NetworkService::new();
    assert_eq!(net.ensure_labuh_network(true), None);
    assert_eq!(net.ensure_labuh_network(false), Some(("labuh-network".to_string(), "bridge".to_string())));
    assert_eq!(
        net.network_created(Err("no space".to_string())),
        Err(AppError::ContainerRuntime("Failed to create network: no space".to_string()))
    );
    assert_eq!(
        net.disconnect_container(Err("gone".to_string())),
        Err(AppError::ContainerRuntime("Failed to disconnect container: gone".to_string()))
    );
}
