use axum_health::kind::is_covered;
use axum_health::registry::validate_name;
use axum_health::{Endpoint, Health, Kind};

fn layout(mount: &str) -> Vec<(String, Option<Kind>)> {
    Health::<u8>::builder()
        .build()
        .router_at(mount)
        .endpoints
        .into_iter()
        .map(|endpoint| (endpoint.path, endpoint.kind))
        .collect()
}

#[test]
fn the_default_endpoints_are_at_health() {
    let router = Health::<u8>::builder().build().router();
    let paths: Vec<&str> = router.endpoints.iter().map(|endpoint| endpoint.path.as_str()).collect();
    assert_eq!(
        paths,
        vec!["/health", "/health/live", "/health/ready", "/health/started"]
    );
    let kinds: Vec<Option<Kind>> = router.endpoints.iter().map(|endpoint| endpoint.kind).collect();
    assert_eq!(
        kinds,
        vec![
            None,
            Some(Kind::Liveness),
            Some(Kind::Readiness),
            Some(Kind::Startup)
        ]
    );
}

#[test]
fn the_endpoints_can_be_mounted_elsewhere() {
    assert_eq!(
        layout("/internal/health"),
        vec![
            ("/internal/health".to_string(), None),
            ("/internal/health/live".to_string(), Some(Kind::Liveness)),
            ("/internal/health/ready".to_string(), Some(Kind::Readiness)),
            ("/internal/health/started".to_string(), Some(Kind::Startup)),
        ]
    );
}

#[test]
fn a_slash_at_the_end_of_the_mount_path_is_not_doubled() {
    assert_eq!(
        layout("/probes/"),
        vec![
            ("/probes/".to_string(), None),
            ("/probes/live".to_string(), Some(Kind::Liveness)),
            ("/probes/ready".to_string(), Some(Kind::Readiness)),
            ("/probes/started".to_string(), Some(Kind::Startup)),
        ]
    );
}

#[test]
fn endpoint_paths_differ_under_any_mount_path() {
    for mount in ["", "/", "/health", "/live", "/a/ready/"] {
        let endpoints = layout(mount);
        for i in 0..endpoints.len() {
            for j in 0..i {
                assert_ne!(endpoints[i].0, endpoints[j].0);
            }
        }
    }
}

#[test]
fn a_router_keeps_its_registry() {
    let router = Health::builder().liveness("process", 1u8).build().router_at("/x");
    assert_eq!(router.health.select(None).len(), 1);
    assert_eq!(
        Endpoint::at("/x", Some(Kind::Startup)),
        Endpoint {
            path: "/x/started".to_string(),
            kind: Some(Kind::Startup)
        }
    );
}

#[test]
fn kinds_have_their_paths() {
    assert_eq!(Kind::Liveness.path(), "/live");
    assert_eq!(Kind::Readiness.path(), "/ready");
    assert_eq!(Kind::Startup.path(), "/started");
}

#[test]
fn a_request_covers_its_kind_or_all() {
    assert!(is_covered(None, Kind::Startup));
    assert!(is_covered(Some(Kind::Startup), Kind::Startup));
    assert!(!is_covered(Some(Kind::Liveness), Kind::Startup));
}

#[test]
fn a_name_is_kept_as_it_is() {
    assert_eq!(validate_name("ldap directory"), "ldap directory");
}
