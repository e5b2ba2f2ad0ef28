use labuh::backend::models::stack::Stack;
use labuh::backend::services::container::ContainerInfo as RuntimeContainer;
use labuh::backend::usecase::metrics_collector::{prune_cutoff, CollectAction, CollectEvent, MetricsCollector};
use labuh::backend::usecase::node::{NodeUsecase, SwarmAction, SwarmEvent};
use labuh::backend::usecase::stack::StackUsecase;
use labuh::backend::usecase::stack_git::{GitAction, GitEvent, HealthCheck, StackRecord};
use labuh::backend::usecase::template::{SeedAction, SeedEvent, TemplateUsecase};
use labuh::error::AppError;
use labuh::server::services::container::{create_plan, ContainerInfo, CreateContainerRequest};
use labuh::server::services::domain::DomainService;
use labuh::server::services::domain_flow::{DomainAction, DomainEvent};
use labuh::server::services::stack::{ContainersAction, ContainersEvent, StackService};
use labuh::server::services::stack_deploy::{ServiceRequest, StackDeployAction, StackDeployEvent};
use labuh::server::webhooks::{trigger_deploy, TriggerAction, TriggerEvent};

fn stack(id: &str, name: &str, compose: Option<&str>) -> Stack {
    Stack {
        id: id.to_string(),
        name: name.to_string(),
        user_id: "u1".to_string(),
        compose_content: compose.map(|c| c.to_string()),
        status: "stopped".to_string(),
        webhook_token: Some("tok".to_string()),
        created_at: "t0".to_string(),
        updated_at: "t0".to_string(),
    }
}

fn container(id: &str, name: &str, state: &str) -> ContainerInfo {
    ContainerInfo {
        id: id.to_string(),
        names: vec![name.to_string()],
        image: "img".to_string(),
        state: state.to_string(),
        status: "Up".to_string(),
        ports: Vec::new(),
        created: 0,
    }
}

fn record(id: &str, git: Option<(&str, Option<&str>)>) -> StackRecord {
    StackRecord {
        id: id.to_string(),
        name: "shop".to_string(),
        user_id: "u1".to_string(),
        team_id: "t1".to_string(),
        compose_content: Some("services: {}".to_string()),
        status: "stopped".to_string(),
        webhook_token: None,
        cron_schedule: None,
        health_check_path: None,
        health_check_interval: 30,
        last_stable_images: None,
        git_url: git.map(|g| g.0.to_string()),
        git_branch: git.and_then(|g| g.1.map(|b| b.to_string())),
        last_commit_hash: None,
        created_at: "t0".to_string(),
        updated_at: "t0".to_string(),
    }
}

#[test]
fn swarm_init_tolerates_network_failures() {
    let nodes = NodeUsecase::new();
    let (flow, action) = nodes.init_swarm("0.0.0.0:2377");
    assert!(matches!(action, SwarmAction::Init { ref listen_addr } if listen_addr == "0.0.0.0:2377"));
    let (flow, action) = flow.step(SwarmEvent::Initialized(Ok("SWMTKN".to_string())));
    assert!(matches!(action, SwarmAction::MigrateNetwork { ref network } if network == "labuh-network"));
    let (flow, action) = flow.step(SwarmEvent::Step(Err(AppError::Internal("no overlay".to_string()))));
    assert!(matches!(action, SwarmAction::ConnectNetwork { ref container, .. } if container == "labuh-caddy"));
    let (_, action) = flow.step(SwarmEvent::Step(Err(AppError::Internal("gone".to_string()))));
    assert!(matches!(action, SwarmAction::Finish(Ok(Some(ref t))) if t == "SWMTKN"));
}

#[test]
fn swarm_join_failure_ends_it() {
    let nodes = NodeUsecase::new();
    let (flow, _) = nodes.join_swarm("a", "b", "c");
    let (_, action) = flow.step(SwarmEvent::Joined(Err(AppError::Internal("refused".to_string()))));
    assert!(matches!(action, SwarmAction::Finish(Err(AppError::Internal(_)))));
}

#[test]
fn webhook_call_records_a_failed_deployment() {
    let (flow, action) = trigger_deploy("s1", "tok");
    assert!(matches!(action, TriggerAction::FindStack { ref stack_id } if stack_id == "s1"));
    let (flow, action) = flow.step(TriggerEvent::Found(Ok(Some(stack("s1", "shop", None)))));
    let log = match action {
        TriggerAction::CreateLog(log) => log,
        other => panic!("unexpected {:?}", other),
    };
    assert_eq!(log.trigger_type, "webhook");
    assert_eq!(log.status, "pending");
    let log_id = log.id.clone();
    let (flow, action) = flow.step(TriggerEvent::Logged(Ok(log)));
    assert!(matches!(action, TriggerAction::Redeploy { ref stack_id } if stack_id == "s1"));
    let failure = AppError::BadRequest("Stack has no compose content".to_string());
    let (flow, action) = flow.step(TriggerEvent::Deployed(Err(failure.clone())));
    assert!(matches!(action, TriggerAction::MarkFailed { ref id, ref error } if *id == log_id && *error == failure));
    let (_, action) = flow.step(TriggerEvent::Step(Ok(())));
    assert!(matches!(action, TriggerAction::Finish(Err(ref e)) if *e == failure));
}

#[test]
fn webhook_call_succeeds_with_deployment_id() {
    let (flow, _) = trigger_deploy("s1", "tok");
    let (flow, action) = flow.step(TriggerEvent::Found(Ok(Some(stack("s1", "shop", None)))));
    let log = match action {
        TriggerAction::CreateLog(log) => log,
        other => panic!("unexpected {:?}", other),
    };
    let id = log.id.clone();
    let (flow, _) = flow.step(TriggerEvent::Logged(Ok(log)));
    let (flow, action) = flow.step(TriggerEvent::Deployed(Ok(())));
    assert!(matches!(action, TriggerAction::MarkSucceeded { ref logs, .. } if logs == "Stack redeployed successfully"));
    let (_, action) = flow.step(TriggerEvent::Step(Ok(())));
    assert!(matches!(action, TriggerAction::Finish(Ok(ref d)) if *d == id));
}

#[test]
fn webhook_call_with_a_wrong_token_deploys_nothing() {
    let (flow, _) = trigger_deploy("s1", "other");
    let (_, action) = flow.step(TriggerEvent::Found(Ok(Some(stack("s1", "shop", None)))));
    assert!(matches!(action, TriggerAction::Finish(Err(AppError::Auth(ref m))) if m == "Invalid webhook token"));
    let (flow, _) = trigger_deploy("s2", "tok");
    let (_, action) = flow.step(TriggerEvent::Found(Ok(None)));
    assert!(matches!(action, TriggerAction::Finish(Err(AppError::NotFound(ref m))) if m == "Stack not found"));
}

#[test]
fn creating_a_stack_deploys_each_service() {
    let svc = StackService::new();
    let (flow, action) = svc.create_stack("shop", "services: {}", "u1");
    assert!(matches!(action, StackDeployAction::ParseCompose { .. }));
    let request = CreateContainerRequest {
        name: "shop-web".to_string(),
        image: "nginx".to_string(),
        env: Some(vec!["A=1".to_string()]),
        ports: None,
        volumes: None,
    };
    let (flow, action) = flow.step(StackDeployEvent::Services(Ok(vec![ServiceRequest { name: "web".to_string(), request }])));
    let inserted = match action {
        StackDeployAction::InsertStack(st) => st,
        other => panic!("unexpected {:?}", other),
    };
    assert_eq!(inserted.status, "creating");
    assert_eq!(inserted.webhook_token.as_ref().map(|t| t.len()), Some(32));
    let (flow, action) = flow.step(StackDeployEvent::Step(Ok(())));
    assert!(matches!(action, StackDeployAction::LoadEnv { ref container, .. } if container == "web"));
    let (flow, action) = flow.step(StackDeployEvent::Env(Err(AppError::Internal("db".to_string()))));
    assert!(matches!(action, StackDeployAction::PullImage { ref image } if image == "nginx"));
    let (flow, action) = flow.step(StackDeployEvent::Step(Ok(())));
    match action {
        StackDeployAction::CreateContainer(r) => assert_eq!(r.env, Some(vec!["A=1".to_string()])),
        other => panic!("unexpected {:?}", other),
    }
    let (flow, action) = flow.step(StackDeployEvent::Created(Ok("c1".to_string())));
    assert!(matches!(action, StackDeployAction::UpdateStatus { ref status, .. } if status == "stopped"));
    let (flow, action) = flow.step(StackDeployEvent::Step(Ok(())));
    assert!(matches!(action, StackDeployAction::GetStack { user_id: Some(_), .. }));
    let (_, action) = flow.step(StackDeployEvent::Stack(Ok(Some(stack(&inserted.id, "shop", Some("services: {}"))))));
    assert!(matches!(action, StackDeployAction::Finish(Ok(Some(_)))));
}

#[test]
fn redeploying_one_service_replaces_its_container() {
    let svc = StackService::new();
    let (flow, _) = svc.redeploy_service("s1", "web", "u1");
    let (flow, action) = flow.step(StackDeployEvent::Stack(Ok(Some(stack("s1", "shop", Some("c"))))));
    assert!(matches!(action, StackDeployAction::ParseCompose { .. }));
    let request = CreateContainerRequest {
        name: "shop-web".to_string(),
        image: "nginx".to_string(),
        env: None,
        ports: None,
        volumes: None,
    };
    let other = CreateContainerRequest {
        name: "shop-db".to_string(),
        image: "postgres".to_string(),
        env: None,
        ports: None,
        volumes: None,
    };
    let list = vec![ServiceRequest { name: "db".to_string(), request: other }, ServiceRequest { name: "web".to_string(), request }];
    let (flow, action) = flow.step(StackDeployEvent::Services(Ok(list)));
    assert!(matches!(action, StackDeployAction::LoadEnv { ref container, .. } if container == "web"));
    let (flow, action) = flow.step(StackDeployEvent::Env(Ok(vec![("K".to_string(), "V".to_string())])));
    assert!(matches!(action, StackDeployAction::PullImage { ref image } if image == "nginx"));
    let (flow, action) = flow.step(StackDeployEvent::Step(Ok(())));
    assert!(matches!(action, StackDeployAction::ListContainers));
    let all = vec![container("old", "/shop-web", "running"), container("keep", "/shop-db", "running"), container("x", "/other-web", "running")];
    let (flow, action) = flow.step(StackDeployEvent::Containers(Ok(all)));
    assert!(matches!(action, StackDeployAction::StopContainer { ref id } if id == "old"));
    let (flow, action) = flow.step(StackDeployEvent::Step(Err(AppError::Internal("not running".to_string()))));
    assert!(matches!(action, StackDeployAction::RemoveContainer { ref id } if id == "old"));
    let (flow, action) = flow.step(StackDeployEvent::Step(Ok(())));
    match action {
        StackDeployAction::CreateContainer(r) => {
            assert_eq!(r.image, "nginx");
            assert_eq!(r.env, Some(vec!["K=V".to_string()]));
        },
        other => panic!("unexpected {:?}", other),
    }
    let (flow, action) = flow.step(StackDeployEvent::Created(Ok("new".to_string())));
    assert!(matches!(action, StackDeployAction::StartContainer { ref id } if id == "new"));
    let (_, action) = flow.step(StackDeployEvent::Step(Ok(())));
    assert!(matches!(action, StackDeployAction::Finish(Ok(None))));
}

#[test]
fn redeploying_a_missing_service_is_not_found() {
    let svc = StackService::new();
    let (flow, _) = svc.redeploy_service("s1", "api", "u1");
    let (flow, _) = flow.step(StackDeployEvent::Stack(Ok(Some(stack("s1", "shop", Some("c"))))));
    let (_, action) = flow.step(StackDeployEvent::Services(Ok(Vec::new())));
    assert!(matches!(action, StackDeployAction::Finish(Err(AppError::NotFound(ref m))) if m == "Service api not found in stack"));
}

#[test]
fn redeploying_without_compose_is_a_bad_request() {
    let svc = StackService::new();
    let (flow, _) = svc.redeploy_stack("s1");
    let (_, action) = flow.step(StackDeployEvent::Stack(Ok(Some(stack("s1", "shop", None)))));
    assert!(matches!(action, StackDeployAction::Finish(Err(AppError::BadRequest(ref m))) if m == "Stack has no compose content"));
}

#[test]
fn removing_a_stack_stops_running_containers_first() {
    let svc = StackService::new();
    let (flow, action) = svc.remove_stack("s1", "u1");
    assert!(matches!(action, ContainersAction::GetStack { .. }));
    let (flow, action) = flow.step(ContainersEvent::Stack(Ok(Some(stack("s1", "shop", None)))));
    assert!(matches!(action, ContainersAction::ListContainers));
    let all = vec![container("a", "/shop-web", "running"), container("b", "/shop-db", "exited"), container("c", "/blog-web", "running")];
    let (flow, action) = flow.step(ContainersEvent::Containers(Ok(all)));
    assert!(matches!(action, ContainersAction::StopContainer { ref id } if id == "a"));
    let (flow, action) = flow.step(ContainersEvent::Step(Ok(())));
    assert!(matches!(action, ContainersAction::RemoveContainer { ref id } if id == "a"));
    let (flow, action) = flow.step(ContainersEvent::Step(Ok(())));
    assert!(matches!(action, ContainersAction::RemoveContainer { ref id } if id == "b"));
    let (flow, action) = flow.step(ContainersEvent::Step(Ok(())));
    assert!(matches!(action, ContainersAction::DeleteStack { ref id } if id == "s1"));
    let (_, action) = flow.step(ContainersEvent::Step(Ok(())));
    assert!(matches!(action, ContainersAction::Finish(Ok(()))));
}

#[test]
fn adding_a_domain_rolls_back_when_routing_fails() {
    let svc = DomainService::new();
    let (flow, action) = svc.add_domain("s1", "shop.example.com", "shop:80");
    assert!(matches!(action, DomainAction::FindDomain { stack_id: None, .. }));
    let (flow, action) = flow.step(DomainEvent::Found(Ok(None)));
    let id = match action {
        DomainAction::InsertDomain { id, .. } => id,
        other => panic!("unexpected {:?}", other),
    };
    let (flow, action) = flow.step(DomainEvent::Step(Ok(())));
    assert!(matches!(action, DomainAction::AddRoute { ref upstream, .. } if upstream == "shop:80"));
    let refused = AppError::CaddyApi("refused".to_string());
    let (flow, action) = flow.step(DomainEvent::Step(Err(refused.clone())));
    assert!(matches!(action, DomainAction::DeleteDomain { id: ref d } if *d == id));
    let (_, action) = flow.step(DomainEvent::Step(Ok(())));
    assert!(matches!(action, DomainAction::Finish(Err(ref e)) if *e == refused));
}

#[test]
fn a_taken_domain_is_a_conflict() {
    let svc = DomainService::new();
    let (flow, _) = svc.add_domain("s1", "shop.example.com", "shop:80");
    let taken = labuh::server::models::domain::Domain {
        id: "d1".to_string(),
        project_id: "p".to_string(),
        domain: "shop.example.com".to_string(),
        ssl_enabled: true,
        verified: false,
        created_at: "t0".to_string(),
    };
    let (_, action) = flow.step(DomainEvent::Found(Ok(Some(taken))));
    assert!(matches!(action, DomainAction::Finish(Err(AppError::Conflict(ref m))) if m == "Domain 'shop.example.com' already exists"));
}

#[test]
fn seeding_skips_when_templates_exist() {
    let t = TemplateUsecase::new();
    let (flow, action) = t.seed_default_templates::<String>();
    assert!(matches!(action, SeedAction::Count));
    let (_, action) = flow.step(SeedEvent::<String>::Count(Ok(3)));
    assert!(matches!(action, SeedAction::Finish(Ok(()))));
    let (flow, _) = t.seed_default_templates::<String>();
    let (flow, action) = flow.step(SeedEvent::<String>::Count(Ok(0)));
    assert!(matches!(action, SeedAction::ReadDir));
    let (flow, action) = flow.step(SeedEvent::<String>::Entries(Some(vec!["a.json".to_string(), "b.json".to_string()])));
    assert!(matches!(action, SeedAction::Load { ref path } if path == "a.json"));
    let (flow, action) = flow.step(SeedEvent::<String>::Loaded(None));
    assert!(matches!(action, SeedAction::Load { ref path } if path == "b.json"));
    let (flow, action) = flow.step(SeedEvent::Loaded(Some("tpl".to_string())));
    assert!(matches!(action, SeedAction::Save(ref t) if t == "tpl"));
    let (_, action) = flow.step(SeedEvent::<String>::Saved(Err(AppError::Internal("dup".to_string()))));
    assert!(matches!(action, SeedAction::Finish(Ok(()))));
}

#[test]
fn metrics_are_collected_for_each_stack_container() {
    let collector = MetricsCollector::new();
    let (flow, action) = collector.collect_metrics();
    assert!(matches!(action, CollectAction::ListStacks));
    let (flow, action) = flow.step(CollectEvent::Stacks(Ok(vec!["s1".to_string(), "s2".to_string()])));
    assert!(matches!(action, CollectAction::ListContainers));
    let labelled = |id: &str, stack: &str| RuntimeContainer {
        id: id.to_string(),
        names: vec![format!("/{}", id)],
        image: "img".to_string(),
        state: "running".to_string(),
        status: "Up".to_string(),
        ports: Vec::new(),
        created: 0,
        labels: vec![("labuh.stack.id".to_string(), stack.to_string())],
    };
    let (flow, action) = flow.step(CollectEvent::Containers(Ok(vec![labelled("c1", "s1"), labelled("c2", "s2")])));
    assert!(matches!(action, CollectAction::CollectStats { ref container_id, ref stack_id } if container_id == "c1" && stack_id == "s1"));
    let (flow, action) = flow.step(CollectEvent::Collected);
    assert!(matches!(action, CollectAction::ListContainers));
    let (flow, action) = flow.step(CollectEvent::Containers(Err(AppError::ContainerRuntime("down".to_string()))));
    assert!(matches!(action, CollectAction::Prune { max_age_days: 30 }));
    let (_, action) = flow.step(CollectEvent::Pruned);
    assert!(matches!(action, CollectAction::Finish(Ok(()))));
}

#[test]
fn syncing_git_defaults_to_main_branch() {
    let stacks = StackUsecase::new();
    let (flow, action) = stacks.sync_git("s1", "u1");
    assert!(matches!(action, GitAction::GetStack { .. }));
    let (flow, action) = flow.step(GitEvent::Fetched(Ok(record("s1", Some(("https://git.example.com/shop.git", None))))));
    assert!(matches!(action, GitAction::CloneOrPull { ref branch, ref dir, .. } if branch == "main" && dir == "backend/data/git/s1"));
    let (flow, action) = flow.step(GitEvent::Cloned(Ok("abc123".to_string())));
    assert!(matches!(action, GitAction::ReadCompose { ref path, .. } if path == "docker-compose.yml"));
    let (flow, action) = flow.step(GitEvent::Read(Ok("services: {}".to_string())));
    assert!(matches!(action, GitAction::UpdateCompose { .. }));
    let (flow, action) = flow.step(GitEvent::Step(Ok(())));
    assert!(matches!(action, GitAction::UpdateCommit { ref commit, .. } if commit == "abc123"));
    let (flow, action) = flow.step(GitEvent::Step(Ok(())));
    assert!(matches!(action, GitAction::Redeploy { .. }));
    let (_, action) = flow.step(GitEvent::Step(Ok(())));
    assert!(matches!(action, GitAction::Finish(Ok(None))));
}

#[test]
fn syncing_an_unlinked_stack_is_refused() {
    let stacks = StackUsecase::new();
    let (flow, _) = stacks.sync_git("s1", "u1");
    let (_, action) = flow.step(GitEvent::Fetched(Ok(record("s1", None))));
    assert!(matches!(action, GitAction::Finish(Err(AppError::BadRequest(ref m))) if m == "Stack not linked to Git"));
}

#[test]
fn unreadable_compose_in_repo_is_a_bad_request() {
    let stacks = StackUsecase::new();
    let (flow, _) = stacks.sync_git("s1", "u1");
    let (flow, _) = flow.step(GitEvent::Fetched(Ok(record("s1", Some(("u", Some("dev")))))));
    let (flow, _) = flow.step(GitEvent::Cloned(Ok("h".to_string())));
    let (_, action) = flow.step(GitEvent::Read(Err("No such file".to_string())));
    assert!(matches!(action, GitAction::Finish(Err(AppError::BadRequest(ref m))) if m == "Failed to read compose file from repo: No such file"));
}

#[test]
fn health_checks() {
    let stacks = StackUsecase::new();
    assert!(matches!(stacks.perform_health_check(None), HealthCheck::Skip));
    assert!(matches!(stacks.perform_health_check(Some(String::new())), HealthCheck::Skip));
    assert!(matches!(stacks.perform_health_check(Some("http://app/health".to_string())), HealthCheck::Probe { url: Some(ref u) } if u == "http://app/health"));
    assert!(matches!(stacks.perform_health_check(Some("/health".to_string())), HealthCheck::Probe { url: None }));
    assert_eq!(stacks.health_check_result(Ok((true, "200 OK".to_string()))), Ok(()));
    assert_eq!(
        stacks.health_check_result(Ok((false, "503 Service Unavailable".to_string()))),
        Err(AppError::Internal("Health check returned non-success status: 503 Service Unavailable".to_string()))
    );
    assert_eq!(
        stacks.health_check_result(Err("timeout".to_string())),
        Err(AppError::Internal("Health check request failed: timeout".to_string()))
    );
}

#[test]
fn containers_without_stack_label_are_not_managed() {
    let stacks = StackUsecase::new();
    let c = RuntimeContainer {
        id: "c1".to_string(),
        names: vec!["/x".to_string()],
        image: "img".to_string(),
        state: "running".to_string(),
        status: "Up".to_string(),
        ports: Vec::new(),
        created: 0,
        labels: Vec::new(),
    };
    assert_eq!(stacks.verify_container_ownership(&c), Err(AppError::Forbidden("Container not managed by Labuh".to_string())));
    let owned = RuntimeContainer { labels: vec![("labuh.stack.id".to_string(), "s9".to_string())], ..c };
    assert_eq!(stacks.verify_container_ownership(&owned), Ok("s9".to_string()));
}

#[test]
fn backend_service_redeploy_starts_the_named_container() {
    let svc = labuh::backend::services::stack::StackService::new();
    let (flow, _) = svc.redeploy_service("s1", "SHOP-WEB", "u1");
    let (flow, _) = flow.step(StackDeployEvent::Stack(Ok(Some(stack("s1", "shop", Some("c"))))));
    let request = CreateContainerRequest {
        name: "shop-web".to_string(),
        image: "nginx".to_string(),
        env: None,
        ports: None,
        volumes: None,
    };
    let (flow, action) = flow.step(StackDeployEvent::Services(Ok(vec![ServiceRequest { name: "web".to_string(), request }])));
    assert!(matches!(action, StackDeployAction::LoadEnv { ref container, .. } if container == "web"));
    let (flow, action) = flow.step(StackDeployEvent::Env(Err(AppError::Internal("db".to_string()))));
    assert!(matches!(action, StackDeployAction::PullImage { .. }));
    let (flow, _) = flow.step(StackDeployEvent::Step(Ok(())));
    let (flow, action) = flow.step(StackDeployEvent::Containers(Ok(Vec::new())));
    assert!(matches!(action, StackDeployAction::CreateContainer(_)));
    let (flow, action) = flow.step(StackDeployEvent::Created(Ok("new".to_string())));
    assert!(matches!(action, StackDeployAction::ListContainers));
    let (flow, action) = flow.step(StackDeployEvent::Containers(Ok(vec![container("new", "/shop-web", "created")])));
    assert!(matches!(action, StackDeployAction::StartContainer { ref id } if id == "new"));
    let (_, action) = flow.step(StackDeployEvent::Step(Ok(())));
    assert!(matches!(action, StackDeployAction::Finish(Ok(None))));
}

#[test]
fn backend_service_redeploy_of_unknown_service() {
    let svc = labuh::backend::services::stack::StackService::new();
    let (flow, _) = svc.redeploy_service("s1", "api", "u1");
    let (flow, _) = flow.step(StackDeployEvent::Stack(Ok(Some(stack("s1", "shop", Some("c"))))));
    let (_, action) = flow.step(StackDeployEvent::Services(Ok(Vec::new())));
    assert!(matches!(action, StackDeployAction::Finish(Err(AppError::NotFound(ref m))) if m == "Service api not found"));
}

#[test]
fn backend_removal_is_best_effort() {
    let svc = labuh::backend::services::stack::StackService::new();
    let (flow, _) = svc.remove_stack("s1", "u1");
    let (flow, _) = flow.step(ContainersEvent::Stack(Ok(Some(stack("s1", "shop", None)))));
    let (flow, action) = flow.step(ContainersEvent::Containers(Ok(vec![container("a", "/shop-web", "exited")])));
    assert!(matches!(action, ContainersAction::StopContainer { ref id } if id == "a"));
    let (flow, action) = flow.step(ContainersEvent::Step(Err(AppError::ContainerRuntime("not running".to_string()))));
    assert!(matches!(action, ContainersAction::RemoveContainer { ref id } if id == "a"));
    let (flow, action) = flow.step(ContainersEvent::Step(Err(AppError::ContainerRuntime("gone".to_string()))));
    assert!(matches!(action, ContainersAction::DeleteStack { ref id } if id == "s1"));
    let (_, action) = flow.step(ContainersEvent::Step(Ok(())));
    assert!(matches!(action, ContainersAction::Finish(Ok(()))));
}

#[test]
fn container_plan_exposes_and_binds_on_all_interfaces() {
    let plan = create_plan(CreateContainerRequest {
        name: "web".to_string(),
        image: "nginx".to_string(),
        env: None,
        ports: Some(vec![("80".to_string(), "8080".to_string()), ("53/udp".to_string(), "5353".to_string())]),
        volumes: Some(vec![("/data".to_string(), "/var/data".to_string())]),
    });
    assert_eq!(plan.host_ip, "0.0.0.0");
    assert_eq!(plan.exposed_ports, Some(vec!["80/tcp".to_string(), "53/udp".to_string()]));
    assert_eq!(plan.binds, Some(vec!["/data:/var/data".to_string()]));
    let bare = create_plan(CreateContainerRequest { name: "x".to_string(), image: "i".to_string(), env: None, ports: None, volumes: None });
    assert!(bare.exposed_ports.is_none() && bare.port_bindings.is_none());
}

#[test]
fn metrics_are_pruned_after_thirty_days() {
    assert_eq!(prune_cutoff(30 * 86_400), Some("1970-01-01T00:00:00+00:00".to_string()));
}
