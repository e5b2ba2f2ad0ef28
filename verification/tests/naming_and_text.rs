use labuh::error::AppError;
use labuh::proxy::{fallback_admin_url_of, generate_caddyfile, read_host_lists, CaddyRoute};
use labuh::server::services::caddy::CaddyService;
use labuh::registry::{decode_password, encode_password, extract_registry, read_password, PasswordFault};
use labuh::server::middleware::bearer_token;
use labuh::server::models::project::slugify;
use labuh::server::services::domain::DomainService;
use labuh::server::services::network::NetworkService;

#[test]
fn slugify_lowercases_and_dashes() {
    assert_eq!(slugify("Hello World!"), "hello-world");
    assert_eq!(slugify("  My--App  "), "my-app");
    assert_eq!(slugify("API v2"), "api-v2");
}

#[test]
fn subdomain_of_stack_name() {
    assert_eq!(DomainService::generate_subdomain("My Stack", "example.com"), "my-stack.example.com");
    assert_eq!(DomainService::stack_upstream("web"), "web:80");
}

#[test]
fn registry_of_image_references() {
    assert_eq!(extract_registry("nginx"), "docker.io");
    assert_eq!(extract_registry("nginx:latest"), "docker.io");
    assert_eq!(extract_registry("user/app"), "docker.io");
    assert_eq!(extract_registry("ghcr.io/user/app:1"), "ghcr.io");
    assert_eq!(extract_registry("localhost:5000/app"), "localhost:5000");
}

#[test]
fn passwords_round_trip_through_base64() {
    assert_eq!(encode_password("secret"), "c2VjcmV0");
    assert_eq!(decode_password("c2VjcmV0"), Some("secret".to_string()));
    assert_eq!(decode_password("!!"), None);
    assert_eq!(read_password("c2VjcmV0"), Ok("secret".to_string()));
    assert_eq!(read_password("!!"), Err(PasswordFault::NotBase64));
    assert_eq!(read_password("/w=="), Err(PasswordFault::NotUtf8));
}

#[test]
fn admin_url_fallback_replaces_localhost() {
    assert_eq!(fallback_admin_url_of("http://localhost:2019"), Some("http://caddy:2019".to_string()));
    assert_eq!(fallback_admin_url_of("http://caddy:2019"), None);
}

#[test]
fn caddyfile_text_is_exact() {
    let routes = vec![CaddyRoute { domain: "app.example.com".to_string(), upstream: "web:80".to_string() }];
    let text = generate_caddyfile(&routes, "api:3000", "frontend:3000");
    let expected = "# Labuh Platform - Auto-generated Caddyfile\n{\n    admin 0.0.0.0:2019\n}\n\n:80 {\n    handle /api/* {\n        reverse_proxy api:3000\n    }\n\n    handle {\n        reverse_proxy frontend:3000\n    }\n}\n\napp.example.com {\n    reverse_proxy web:80\n}\n\n";
    assert_eq!(text, expected);
}

#[test]
fn bearer_tokens_are_read_from_headers() {
    assert_eq!(bearer_token(Some("Bearer abc.def")), Some("abc.def".to_string()));
    assert_eq!(bearer_token(Some("Basic abc")), None);
    assert_eq!(bearer_token(None), None);
}

#[test]
fn container_aliases_on_the_platform_network() {
    let plain = NetworkService::generate_container_aliases("/myapp", None, None);
    assert_eq!(plain, vec!["myapp".to_string(), "myapp.labuh".to_string()]);
    let full = NetworkService::generate_container_aliases("/mystack-web", Some("mystack"), Some("web"));
    assert_eq!(
        full,
        vec!["mystack-web".to_string(), "mystack-web.labuh".to_string(), "web.mystack.labuh".to_string()]
    );
}

#[test]
fn connecting_twice_is_no_failure() {
    let net = NetworkService::new();
    assert!(net.connect_container("c1", None).is_ok());
    assert!(net.connect_container("c1", Some("Error 403: endpoint exists".to_string())).is_ok());
    assert!(net.connect_container("c1", Some("network already exists".to_string())).is_ok());
    let err = net.connect_container("c1", Some("boom".to_string())).unwrap_err();
    assert_eq!(
        err,
        AppError::ContainerRuntime("Failed to connect container c1 to labuh-network: boom".to_string())
    );
}

#[test]
fn stored_password_reads_back() {
    for p in ["", "secret", "pässwörd", "a:b/c"] {
        assert_eq!(decode_password(&encode_password(p)), Some(p.to_string()));
    }
}

#[test]
fn route_json_is_what_the_admin_api_takes() {
    let caddy = CaddyService::new("http://caddy:2019".to_string());
    assert_eq!(caddy.routes_url(), "http://caddy:2019/config/apps/http/servers/srv0/routes");
    assert_eq!(
        caddy.route_body("a.com", "web:80"),
        r#"{"handle":[{"handler":"reverse_proxy","upstreams":[{"dial":"web:80"}]}],"match":[{"host":["a.com"]}]}"#
    );
    assert_eq!(
        caddy.auth_route_body("a.com", "web:80", "ada", "$2y$h\"x"),
        r#"{"handle":[{"handler":"authentication","providers":{"http_basic":{"accounts":[{"password":"$2y$h\"x","username":"ada"}],"hash":{"algorithm":"bcrypt"}}}},{"handler":"reverse_proxy","upstreams":[{"dial":"web:80"}]}],"match":[{"host":["a.com"]}]}"#
    );
}

#[test]
fn route_listing_is_read_into_host_lists() {
    let listing = r#"[{"match":[{"host":["b.com",7]}]},{"handle":[]},{"match":[{"host":["a.com"]}]}]"#;
    assert_eq!(
        read_host_lists(listing),
        Ok(vec![vec!["b.com".to_string()], Vec::new(), vec!["a.com".to_string()]])
    );
    assert!(read_host_lists("{}").is_err());
    let caddy = CaddyService::new("http://caddy:2019".to_string());
    assert_eq!(caddy.remove_route("a.com", Ok(Ok(listing.to_string()))), Ok(2));
    assert!(matches!(caddy.remove_route("c.com", Ok(Ok(listing.to_string()))), Err(AppError::NotFound(_))));
    assert!(matches!(caddy.remove_route("a.com", Ok(Ok("oops".to_string()))), Err(AppError::CaddyApi(_))));
}

#[test]
fn slugging_a_slug_changes_nothing() {
    for name in ["Hello World!", "--My  App--", "a_b-c", "!!!"] {
        let once = slugify(name);
        assert_eq!(slugify(&once), once);
    }
}
