//! Talking to an endpoint that runs.
use endpoint_control::compute::{
    Cluster, ComputeAudit, ComputeClaims, ComputeClaimsScope, ComputeConfig, ComputeCtlConfig,
    ComputeSpec, OpaqueJson,
};
use endpoint_control::conninfo::{
    PageserverConnectionInfo, PageserverProtocol, PageserverShardInfo, ShardMap,
};
use endpoint_control::control::{check_response, is_error_status, HttpMethod, HttpRequest};
use endpoint_control::endpoint::{Endpoint, EndpointConf};
use endpoint_control::error::EndpointError;
use endpoint_control::ids::{
    ComputeMode, NodeId, PgMajorVersion, SafekeeperGeneration, ShardCount, ShardIndex,
    ShardStripeSize, TenantId, TimelineId,
};
use endpoint_control::jwks::JwkSet;
use endpoint_control::local_env::{LocalEnv, SafekeeperConf};

fn endpoint() -> Endpoint {
    let env = LocalEnv {
        endpoints_path: "/neon/endpoints".to_string(),
        neon_distrib_dir: "/neon/bin".to_string(),
        safekeepers: vec![
            SafekeeperConf { id: NodeId(1), compute_port: 7676 },
            SafekeeperConf { id: NodeId(2), compute_port: 7677 },
        ],
    };
    let conf = EndpointConf {
        endpoint_id: "main".to_string(),
        tenant_id: TenantId { text: "aa".to_string() },
        timeline_id: TimelineId { text: "bb".to_string() },
        mode: ComputeMode::Primary,
        pg_port: 55432,
        external_http_port: 55433,
        internal_http_port: 55434,
        pg_version: PgMajorVersion(16),
        grpc: false,
        skip_pg_catalog_updates: true,
        reconfigure_concurrency: 1,
        drop_subscriptions_before_start: false,
        features: Vec::new(),
        cluster: None,
        compute_ctl_config: ctl_config(),
        privileged_role_name: None,
    };
    Endpoint::from_conf("main".to_string(), conf, &env)
}

fn ctl_config() -> ComputeCtlConfig {
    ComputeCtlConfig {
        jwks: JwkSet { keys: Vec::new() },
        tls: Some(OpaqueJson { text: "{\"key_path\":\"k\"}".to_string() }),
    }
}

fn pageservers(stripe_size: u32, sharded: bool) -> PageserverConnectionInfo {
    let mut shards = ShardMap::new();
    if sharded {
        let info = PageserverShardInfo { pageservers: Vec::new() };
        shards = shards.insert(ShardIndex::unsharded(), info);
    }
    PageserverConnectionInfo {
        shard_count: ShardCount(0),
        stripe_size: Some(ShardStripeSize(stripe_size)),
        shards,
        prefer_protocol: PageserverProtocol::Grpc,
    }
}

fn spec() -> ComputeSpec {
    ComputeSpec {
        skip_pg_catalog_updates: true,
        operation_uuid: None,
        features: Vec::new(),
        swap_size_bytes: Some(7),
        disk_quota_bytes: None,
        disable_lfc_resizing: None,
        cluster: Cluster {
            cluster_id: Some("c".to_string()),
            name: None,
            state: None,
            roles: Vec::new(),
            databases: Vec::new(),
            settings: None,
            postgresql_conf: Some("old".to_string()),
        },
        delta_operations: None,
        tenant_id: None,
        timeline_id: None,
        project_id: None,
        branch_id: None,
        endpoint_id: Some("main".to_string()),
        mode: ComputeMode::Primary,
        pageserver_connection_info: Some(pageservers(1, true)),
        pageserver_connstring: Some("postgres://old".to_string()),
        safekeepers_generation: Some(3),
        safekeeper_connstrings: vec!["127.0.0.1:1".to_string()],
        storage_auth_token: None,
        remote_extensions: None,
        pgbouncer_settings: None,
        shard_stripe_size: Some(ShardStripeSize(1)),
        local_proxy_config: None,
        reconfigure_concurrency: 1,
        drop_subscriptions_before_start: false,
        audit_log_level: ComputeAudit::Disabled,
        logs_export_host: None,
        endpoint_storage_addr: None,
        endpoint_storage_token: None,
        autoprewarm: false,
        offload_lfc_interval_seconds: None,
        suspend_timeout_seconds: -1,
        databricks_settings: None,
    }
}

fn config() -> ComputeConfig {
    ComputeConfig { spec: Some(spec()), compute_ctl_config: ctl_config() }
}

fn own_claims() -> ComputeClaims {
    ComputeClaims { compute_id: Some("main".to_string()), scope: None, audience: None }
}

#[test]
fn admin_tokens_name_the_audience() {
    let ep = endpoint();
    assert_eq!(
        ep.generate_jwt(Some(ComputeClaimsScope::Admin), "compute"),
        ComputeClaims {
            compute_id: None,
            scope: Some(ComputeClaimsScope::Admin),
            audience: Some(vec!["compute".to_string()]),
        }
    );
    assert_eq!(ep.generate_jwt(None, "compute"), own_claims());
}

#[test]
fn requests_go_to_the_right_api() {
    let ep = endpoint();
    assert_eq!(
        ep.get_status(),
        HttpRequest {
            method: HttpMethod::Get,
            url: "http://0.0.0.0:55433/status".to_string(),
            claims: Some(own_claims()),
            timeout_seconds: None,
        }
    );
    assert_eq!(
        ep.configure(),
        HttpRequest {
            method: HttpMethod::Post,
            url: "http://0.0.0.0:55433/configure".to_string(),
            claims: Some(own_claims()),
            timeout_seconds: Some(120),
        }
    );
    assert_eq!(
        ep.refresh_configuration(),
        HttpRequest {
            method: HttpMethod::Post,
            url: "http://127.0.0.1:55434/refresh_configuration".to_string(),
            claims: None,
            timeout_seconds: Some(30),
        }
    );
}

#[test]
fn errors_are_told_by_their_status() {
    for status in [100, 200, 204, 302, 399, 600, 999] {
        assert!(!is_error_status(status));
    }
    for status in [400, 404, 499, 500, 503, 599] {
        assert!(is_error_status(status));
    }
}

#[test]
fn error_responses_become_errors() {
    let url = "http://0.0.0.0:55433/status";
    assert_eq!(check_response(200, url, &None), Ok(()));
    assert_eq!(
        check_response(412, url, &Some("not now".to_string())),
        Err(EndpointError::Http { message: "Error: not now".to_string() })
    );
    assert_eq!(
        check_response(500, url, &None),
        Err(EndpointError::Http {
            message: "Http error (500) at http://0.0.0.0:55433/status.".to_string(),
        })
    );
}

#[test]
fn pageservers_are_updated_in_the_configuration() {
    let wanted = ComputeConfig {
        spec: Some(ComputeSpec {
            pageserver_connection_info: Some(pageservers(9, false)),
            ..spec()
        }),
        compute_ctl_config: ctl_config(),
    };
    assert_eq!(endpoint().update_pageservers_in_config(config(), &pageservers(9, false)), wanted);
}

fn with_conf(conf: &str) -> ComputeSpec {
    let mut spec = spec();
    spec.cluster.postgresql_conf = Some(conf.to_string());
    spec
}

#[test]
fn reconfiguring_without_arguments_takes_the_current_conf() {
    let request = endpoint().reconfigure(config(), "new".to_string(), None, None, None).unwrap();
    assert_eq!(request.spec, with_conf("new"));
    assert_eq!(request.compute_ctl_config, ctl_config());
}

#[test]
fn reconfiguring_pageservers_leaves_the_rest() {
    let request = endpoint()
        .reconfigure_pageservers(config(), "new".to_string(), &pageservers(9, true))
        .unwrap();
    assert_eq!(
        request.spec,
        ComputeSpec {
            pageserver_connection_info: Some(pageservers(9, true)),
            shard_stripe_size: Some(ShardStripeSize(9)),
            ..with_conf("new")
        }
    );
}

#[test]
fn reconfiguring_needs_pageservers() {
    assert_eq!(
        endpoint().reconfigure_pageservers(config(), "new".to_string(), &pageservers(9, false)),
        Err(EndpointError::NoPageservers)
    );
}

#[test]
fn reconfiguring_safekeepers_leaves_the_rest() {
    let request = endpoint()
        .reconfigure_safekeepers(
            config(),
            "new".to_string(),
            vec![NodeId(2), NodeId(1)],
            SafekeeperGeneration(4),
        )
        .unwrap();
    assert_eq!(
        request.spec,
        ComputeSpec {
            safekeeper_connstrings: vec![
                "127.0.0.1:7677".to_string(),
                "127.0.0.1:7676".to_string(),
            ],
            safekeepers_generation: Some(4),
            ..with_conf("new")
        }
    );
}

#[test]
fn generation_changes_only_with_safekeepers() {
    let generation = Some(SafekeeperGeneration(4));
    let request = endpoint()
        .reconfigure(config(), "new".to_string(), None, None, generation)
        .unwrap();
    assert_eq!(request.spec.safekeepers_generation, Some(3));
    let request = endpoint()
        .reconfigure(config(), "new".to_string(), None, Some(vec![NodeId(1)]), None)
        .unwrap();
    assert_eq!(request.spec.safekeepers_generation, Some(3));
    assert_eq!(request.spec.safekeeper_connstrings, vec!["127.0.0.1:7676".to_string()]);
}

#[test]
fn reconfiguring_with_unknown_safekeeper() {
    assert_eq!(
        endpoint().reconfigure_safekeepers(
            config(),
            "new".to_string(),
            vec![NodeId(8)],
            SafekeeperGeneration(4),
        ),
        Err(EndpointError::SafekeeperMissing { id: NodeId(8) })
    );
}

#[test]
fn reconfiguring_twice_is_reconfiguring_once() {
    let ep = endpoint();
    let once = |config: ComputeConfig| {
        ep.reconfigure(
            config,
            "new".to_string(),
            Some(&pageservers(9, true)),
            Some(vec![NodeId(1)]),
            Some(SafekeeperGeneration(4)),
        )
        .unwrap()
    };
    let first = once(config());
    let again = once(ComputeConfig {
        spec: Some(once(config()).spec),
        compute_ctl_config: ctl_config(),
    });
    assert_eq!(again, first);
}

#[test]
fn reconfiguring_in_steps_is_reconfiguring_at_once() {
    let ep = endpoint();
    let both = ep
        .reconfigure(
            config(),
            "new".to_string(),
            Some(&pageservers(9, true)),
            Some(vec![NodeId(1)]),
            Some(SafekeeperGeneration(4)),
        )
        .unwrap();
    let step = ep
        .reconfigure_pageservers(config(), "new".to_string(), &pageservers(9, true))
        .unwrap();
    let between = ComputeConfig { spec: Some(step.spec), compute_ctl_config: ctl_config() };
    let steps = ep
        .reconfigure_safekeepers(
            between,
            "new".to_string(),
            vec![NodeId(1)],
            SafekeeperGeneration(4),
        )
        .unwrap();
    assert_eq!(steps, both);
}
