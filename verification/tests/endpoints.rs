//! What follows from an endpoint's configuration.
use endpoint_control::address::{Ipv4Address, SocketAddress};
use endpoint_control::command::{CommandArg, CommandLine};
use endpoint_control::compute::ComputeCtlConfig;
use endpoint_control::endpoint::{Endpoint, EndpointConf, EndpointFile};
use endpoint_control::error::EndpointError;
use endpoint_control::ids::{ComputeMode, Lsn, NodeId, PgMajorVersion, TenantId, TimelineId};
use endpoint_control::jwks::JwkSet;
use endpoint_control::local_env::{LocalEnv, SafekeeperConf};
use endpoint_control::path::ChildPath;
use endpoint_control::postgresql_conf::ConfEntry;
use endpoint_control::status::EndpointStatus;

fn env(ports: &[u16]) -> LocalEnv {
    let mut safekeepers = Vec::new();
    for (i, port) in ports.iter().enumerate() {
        safekeepers.push(SafekeeperConf { id: NodeId(i as u64 + 1), compute_port: *port });
    }
    LocalEnv {
        endpoints_path: "/neon/endpoints".to_string(),
        neon_distrib_dir: "/neon/bin".to_string(),
        safekeepers,
    }
}

fn conf(mode: ComputeMode, version: u32) -> EndpointConf {
    EndpointConf {
        endpoint_id: "main".to_string(),
        tenant_id: TenantId { text: "aa".to_string() },
        timeline_id: TimelineId { text: "bb".to_string() },
        mode,
        pg_port: 55432,
        external_http_port: 55433,
        internal_http_port: 55434,
        pg_version: PgMajorVersion(version),
        grpc: false,
        skip_pg_catalog_updates: true,
        reconfigure_concurrency: 1,
        drop_subscriptions_before_start: false,
        features: Vec::new(),
        cluster: None,
        compute_ctl_config: ComputeCtlConfig { jwks: JwkSet { keys: Vec::new() }, tls: None },
        privileged_role_name: None,
    }
}

fn endpoint(mode: ComputeMode, version: u32, ports: &[u16]) -> Endpoint {
    Endpoint::from_conf("main".to_string(), conf(mode, version), &env(ports))
}

fn lines(endpoint: &Endpoint) -> Vec<String> {
    let mut lines = Vec::new();
    for entry in &endpoint.setup_pg_conf().entries {
        lines.push(match entry {
            ConfEntry::Setting { name, value } => format!("{name}={value}"),
            ConfEntry::Line(line) => line.clone(),
        });
    }
    lines
}

const COMMON: [&str; 16] = [
    "max_wal_senders=10",
    "wal_log_hints=off",
    "max_replication_slots=10",
    "hot_standby=on",
    "shared_buffers=1MB",
    "effective_io_concurrency=2",
    "fsync=off",
    "max_connections=100",
    "wal_level=logical",
    "wal_sender_timeout=5s",
    "listen_addresses=127.0.0.1",
    "port=55432",
    "wal_keep_size=0",
    "restart_after_crash=off",
    "shared_preload_libraries=neon",
    "",
];

#[test]
fn addresses_come_from_the_configuration() {
    let ep = endpoint(ComputeMode::Primary, 16, &[]);
    assert_eq!(ep.pg_address, SocketAddress { ip: Ipv4Address(127, 0, 0, 1), port: 55432 });
    assert_eq!(ep.external_http_address, SocketAddress { ip: Ipv4Address(0, 0, 0, 0), port: 55433 });
    assert_eq!(
        ep.internal_http_address,
        SocketAddress { ip: Ipv4Address(127, 0, 0, 1), port: 55434 }
    );
}

#[test]
fn directory_name_is_the_id() {
    let ep = Endpoint::from_conf("renamed".to_string(), conf(ComputeMode::Primary, 16), &env(&[]));
    assert_eq!(ep.endpoint_id, "renamed");
    assert_eq!(ep.tenant_id, TenantId { text: "aa".to_string() });
}

#[test]
fn primary_connects_to_safekeepers() {
    let ep = endpoint(ComputeMode::Primary, 16, &[7676, 7677]);
    let mut wanted: Vec<&str> = COMMON.to_vec();
    wanted.push("max_replication_write_lag=15MB");
    wanted.push("max_replication_flush_lag=10GB");
    wanted.push("synchronous_standby_names=walproposer");
    wanted.push("neon.safekeepers=localhost:7676,localhost:7677");
    assert_eq!(lines(&ep), wanted);
}

#[test]
fn primary_without_safekeepers_streams_to_pageserver() {
    let ep = endpoint(ComputeMode::Primary, 16, &[]);
    let mut wanted: Vec<&str> = COMMON.to_vec();
    wanted.push("max_replication_write_lag=15MB");
    wanted.push("max_replication_flush_lag=10GB");
    wanted.push("synchronous_commit=remote_write");
    wanted.push("synchronous_standby_names=pageserver");
    assert_eq!(lines(&ep), wanted);
}

#[test]
fn static_endpoint_stops_at_its_lsn() {
    let mode = ComputeMode::Static(Lsn { text: "0/16B5A50".to_string() });
    let ep = endpoint(mode, 16, &[7676]);
    let mut wanted: Vec<&str> = COMMON.to_vec();
    wanted.push("recovery_target_lsn=0/16B5A50");
    assert_eq!(lines(&ep), wanted);
}

#[test]
fn replica_follows_the_primary() {
    let ep = endpoint(ComputeMode::Replica, 15, &[7676, 7677]);
    let mut wanted: Vec<&str> = COMMON.to_vec();
    wanted.push(
        "primary_conninfo=host=localhost,localhost port=7676,7677 \
         options='-c timeline_id=bb tenant_id=aa' application_name=replica replication=true",
    );
    wanted.push("primary_slot_name=repl_bb_");
    wanted.push("hot_standby=on");
    wanted.push("recovery_prefetch=off");
    assert_eq!(lines(&ep), wanted);
}

#[test]
fn old_replica_has_no_prefetch_setting() {
    let ep = endpoint(ComputeMode::Replica, 14, &[7676]);
    assert_eq!(lines(&ep).last().unwrap(), "hot_standby=on");
    assert_eq!(lines(&ep).len(), 19);
}

#[test]
fn safekeepers_are_found_by_id() {
    let ep = endpoint(ComputeMode::Primary, 16, &[7676, 7677, 7678]);
    assert_eq!(
        ep.build_safekeepers_connstrs(&vec![NodeId(3), NodeId(1)]),
        Ok(vec!["127.0.0.1:7678".to_string(), "127.0.0.1:7676".to_string()])
    );
    assert_eq!(ep.build_safekeepers_connstrs(&Vec::new()), Ok(Vec::new()));
    assert_eq!(
        ep.build_safekeepers_connstrs(&vec![NodeId(1), NodeId(9), NodeId(8)]),
        Err(EndpointError::SafekeeperMissing { id: NodeId(9) })
    );
}

#[test]
fn first_safekeeper_with_an_id_counts() {
    let mut env = env(&[7676]);
    env.safekeepers.push(SafekeeperConf { id: NodeId(1), compute_port: 9999 });
    let ep = Endpoint::from_conf("main".to_string(), conf(ComputeMode::Primary, 16), &env);
    assert_eq!(
        ep.build_safekeepers_connstrs(&vec![NodeId(1)]),
        Ok(vec!["127.0.0.1:7676".to_string()])
    );
}

#[test]
fn only_primaries_have_safekeepers() {
    let ep = endpoint(ComputeMode::Replica, 16, &[7676]);
    assert_eq!(ep.build_safekeepers_connstrs(&vec![NodeId(1), NodeId(9)]), Ok(Vec::new()));
}

#[test]
fn files_lie_in_the_endpoints_directory() {
    let ep = endpoint(ComputeMode::Primary, 16, &[]);
    let dir = || ChildPath::root("/neon/endpoints").join("main");
    assert_eq!(ep.endpoint_path(), dir());
    assert_eq!(ep.pgdata(), dir().join("pgdata"));
    assert_eq!(ep.postmaster_pid(), dir().join("pgdata").join("postmaster.pid"));
    for (file, name) in [
        (EndpointFile::EndpointJson, "endpoint.json"),
        (EndpointFile::PostgresqlConf, "postgresql.conf"),
        (EndpointFile::ConfigJson, "config.json"),
        (EndpointFile::ComputeLog, "compute.log"),
        (EndpointFile::ComputeCtlPid, "compute_ctl.pid"),
        (EndpointFile::RemoteExtensionsSpec, "remote_extensions_spec.json"),
    ] {
        assert_eq!(ep.file(file), dir().join(name));
    }
}

#[test]
fn files_of_two_endpoints_are_apart() {
    let a = Endpoint::from_conf("a".to_string(), conf(ComputeMode::Primary, 16), &env(&[]));
    let b = Endpoint::from_conf("b".to_string(), conf(ComputeMode::Primary, 16), &env(&[]));
    assert_ne!(a.file(EndpointFile::ConfigJson), b.file(EndpointFile::ConfigJson));
    assert_ne!(a.file(EndpointFile::ConfigJson), a.file(EndpointFile::ComputeLog));
}

#[test]
fn connection_string_names_user_and_database() {
    let ep = endpoint(ComputeMode::Primary, 16, &[]);
    assert_eq!(
        ep.connstr("cloud_admin", "postgres"),
        "postgresql://cloud_admin@127.0.0.1:55432/postgres"
    );
}

#[test]
fn status_of_an_endpoint() {
    let ep = endpoint(ComputeMode::Primary, 16, &[]);
    assert_eq!(ep.status(true, false), EndpointStatus::Crashed);
    assert_eq!(ep.status(false, true), EndpointStatus::RunningNoPidfile);
}

#[test]
fn pg_ctl_runs_on_the_data_directory() {
    let ep = endpoint(ComputeMode::Primary, 16, &[]);
    let args = vec!["-m".to_string(), "fast".to_string(), "stop".to_string()];
    let cmd = ep.pg_ctl(&args, &Some("token".to_string()), "/pg/bin", "/pg/lib");
    let text = |s: &str| CommandArg::Text(s.to_string());
    let pair = |a: &str, b: &str| (a.to_string(), b.to_string());
    assert_eq!(
        cmd,
        CommandLine {
            program: ChildPath::root("/pg/bin").join("pg_ctl"),
            args: vec![
                text("-D"),
                CommandArg::Path(ep.pgdata()),
                text("-w"),
                text("-m"),
                text("fast"),
                text("stop"),
            ],
            env_clear: true,
            envs: vec![
                pair("LD_LIBRARY_PATH", "/pg/lib"),
                pair("DYLD_LIBRARY_PATH", "/pg/lib"),
                pair("NEON_AUTH_TOKEN", "token"),
            ],
        }
    );
    assert_eq!(ep.pg_ctl(&Vec::new(), &None, "/pg/bin", "/pg/lib").envs.len(), 2);
}
