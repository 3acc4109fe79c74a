//! Starting an endpoint.
use endpoint_control::address::{Ipv4Address, SocketAddress};
use endpoint_control::command::{CommandArg, CommandLine};
use endpoint_control::compute::{
    Cluster, ComputeAudit, ComputeClaims, ComputeConfig, ComputeCtlConfig, ComputeFeature,
    ComputeSpec, ComputeStatus, ComputeStatusResponse, Database, OpaqueJson, Role,
};
use endpoint_control::conninfo::{
    PageserverConnectionInfo, PageserverProtocol, PageserverShardConnectionInfo,
    PageserverShardInfo, ShardMap,
};
use endpoint_control::control::{HttpMethod, HttpRequest};
use endpoint_control::endpoint::{Endpoint, EndpointConf, EndpointFile};
use endpoint_control::error::EndpointError;
use endpoint_control::ids::{
    ComputeMode, NodeId, NonZeroSeconds, PgMajorVersion, SafekeeperGeneration, ShardCount,
    ShardIndex, ShardStripeSize, TenantId, TimelineId,
};
use endpoint_control::jwks::JwkSet;
use endpoint_control::local_env::{LocalEnv, SafekeeperConf};
use endpoint_control::path::ChildPath;
use endpoint_control::status::EndpointTerminateMode;
use endpoint_control::stop::{StopAction, StopEvent, StopState};
use endpoint_control::start::{EndpointStartArgs, FileRead, StartAction, StartEvent, StartState};

fn endpoint(cluster: Option<Cluster>) -> Endpoint {
    let env = LocalEnv {
        endpoints_path: "/neon/endpoints".to_string(),
        neon_distrib_dir: "/neon/bin".to_string(),
        safekeepers: vec![
            SafekeeperConf { id: NodeId(1), compute_port: 7676 },
            SafekeeperConf { id: NodeId(2), compute_port: 7677 },
        ],
    };
    let conf = EndpointConf {
        endpoint_id: "main".to_string(),
        tenant_id: TenantId { text: "aa".to_string() },
        timeline_id: TimelineId { text: "bb".to_string() },
        mode: ComputeMode::Primary,
        pg_port: 55432,
        external_http_port: 55433,
        internal_http_port: 55434,
        pg_version: PgMajorVersion(16),
        grpc: false,
        skip_pg_catalog_updates: true,
        reconfigure_concurrency: 1,
        drop_subscriptions_before_start: true,
        features: vec![ComputeFeature { name: "f".to_string() }],
        cluster,
        compute_ctl_config: ComputeCtlConfig { jwks: JwkSet { keys: Vec::new() }, tls: None },
        privileged_role_name: Some("boss".to_string()),
    };
    Endpoint::from_conf("main".to_string(), conf, &env)
}

fn conninfo(libpq_url: Option<&str>) -> PageserverConnectionInfo {
    let pageserver = PageserverShardConnectionInfo {
        id: Some(NodeId(1)),
        libpq_url: libpq_url.map(|url| url.to_string()),
        grpc_url: None,
    };
    PageserverConnectionInfo {
        shard_count: ShardCount(0),
        stripe_size: Some(ShardStripeSize(32)),
        shards: ShardMap::new().insert(
            ShardIndex::unsharded(),
            PageserverShardInfo { pageservers: vec![pageserver] },
        ),
        prefer_protocol: PageserverProtocol::Libpq,
    }
}

fn args() -> EndpointStartArgs {
    EndpointStartArgs {
        auth_token: Some("secret".to_string()),
        endpoint_storage_token: "storage".to_string(),
        endpoint_storage_addr: "http://127.0.0.1:9993".to_string(),
        safekeepers_generation: Some(SafekeeperGeneration(5)),
        safekeepers: vec![NodeId(2)],
        pageserver_conninfo: conninfo(Some("postgres://ps")),
        remote_ext_base_url: Some("http://ext".to_string()),
        create_test_user: true,
        start_timeout: 1_000,
        autoprewarm: true,
        offload_lfc_interval_seconds: NonZeroSeconds::new(60),
        dev: true,
    }
}

fn probed(has_pidfile: bool, can_connect: bool) -> StartEvent {
    StartEvent::StatusProbed { has_pidfile, can_connect }
}

fn conf_read(text: &str) -> StartEvent {
    StartEvent::ConfRead { read: FileRead::Content(text.as_bytes().to_vec()) }
}

fn polled(status: ComputeStatus, error: Option<&str>, elapsed: u128) -> StartEvent {
    let error = error.map(|error| error.to_string());
    StartEvent::StatusPolled { reply: Ok(ComputeStatusResponse { status, error }), elapsed }
}

fn silent(elapsed: u128) -> StartEvent {
    StartEvent::StatusPolled { reply: Err("connection refused".to_string()), elapsed }
}

fn io_failed() -> StartEvent {
    StartEvent::IoFailed { cause: "disk full".to_string() }
}

fn located() -> StartEvent {
    StartEvent::PostgresLocated { pg_bin_dir: "/pg/v16/bin".to_string() }
}

/// The events of a start that goes well, up to and without the first poll.
fn preparation() -> Vec<StartEvent> {
    vec![
        probed(false, false),
        conf_read("port=1\n"),
        StartEvent::PgdataCleared,
        StartEvent::ExtensionsRead { remote_extensions: None },
        StartEvent::ConfigWritten,
        StartEvent::LogOpened,
        located(),
        StartEvent::Launched { pid: 4711 },
        StartEvent::PidWritten,
    ]
}

fn run(ep: &Endpoint, args: &EndpointStartArgs, events: Vec<StartEvent>) -> StartState {
    let mut state = StartState::new();
    for event in events {
        state = ep.start(args, state, event);
    }
    state
}

fn prepared(n: usize) -> StartState {
    let mut events = preparation();
    events.truncate(n);
    run(&endpoint(None), &args(), events)
}

fn polled_once(event: StartEvent) -> StartState {
    let mut events = preparation();
    events.push(event);
    run(&endpoint(None), &args(), events)
}

fn failed(error: EndpointError, kill_child: bool) -> StartState {
    StartState::Failed { error, kill_child }
}

fn written_config(ep: &Endpoint, args: &EndpointStartArgs) -> ComputeSpec {
    let mut events = preparation();
    events.truncate(4);
    match run(ep, args, events) {
        StartState::WritingConfig { config } => config.spec.unwrap(),
        state => panic!("{state:?}"),
    }
}

#[test]
fn conf_file_reads_as_text() {
    assert_eq!(
        Endpoint::read_postgresql_conf(FileRead::Content("f\u{fc}r".as_bytes().to_vec())),
        Ok("f\u{fc}r".to_string())
    );
    assert_eq!(Endpoint::read_postgresql_conf(FileRead::NotFound), Ok(String::new()));
    assert_eq!(
        Endpoint::read_postgresql_conf(FileRead::Content(vec![b'a', 0xff])),
        Err(EndpointError::NotUtf8 {
            cause: "invalid utf-8 sequence of 1 bytes from index 1".to_string(),
        })
    );
    assert_eq!(
        Endpoint::read_postgresql_conf(FileRead::Failed("no permission".to_string())),
        Err(EndpointError::Io { cause: "no permission".to_string() })
    );
}

#[test]
fn conf_reads_back_as_written() {
    for conf in ["", "port=1\n", "# \u{1f600}\n", "\u{0}"] {
        let read = FileRead::Content(conf.as_bytes().to_vec());
        assert_eq!(Endpoint::read_postgresql_conf(read), Ok(conf.to_string()));
    }
}

#[test]
fn running_endpoint_is_not_started_again() {
    let ep = endpoint(None);
    assert_eq!(
        run(&ep, &args(), vec![probed(true, true)]),
        failed(EndpointError::AlreadyRunning, false)
    );
    let state = failed(EndpointError::AlreadyRunning, false);
    assert_eq!(ep.start_action(&args(), &state), StartAction::Finish);
}

#[test]
fn crashed_or_half_dead_endpoint_is_started() {
    for event in [probed(false, false), probed(true, false), probed(false, true)] {
        assert_eq!(run(&endpoint(None), &args(), vec![event]), StartState::ReadingConf);
    }
}

#[test]
fn start_goes_step_by_step() {
    let ep = endpoint(None);
    let act = |n: usize| ep.start_action(&args(), &prepared(n));
    let dir = || ChildPath::root("/neon/endpoints").join("main");
    assert_eq!(
        act(0),
        StartAction::ProbeStatus {
            pidfile: dir().join("pgdata").join("postmaster.pid"),
            address: SocketAddress { ip: Ipv4Address(127, 0, 0, 1), port: 55432 },
            timeout_millis: 300,
        }
    );
    assert_eq!(act(1), StartAction::ReadConf { path: dir().join("postgresql.conf") });
    assert_eq!(act(2), StartAction::RemoveDir { path: dir().join("pgdata") });
    assert_eq!(
        act(3),
        StartAction::ReadExtensions { path: dir().join("remote_extensions_spec.json") }
    );
    assert_eq!(act(4), StartAction::WriteConfig { path: dir().join("config.json") });
    assert_eq!(act(5), StartAction::OpenLog { path: dir().join("compute.log") });
    assert_eq!(
        act(6),
        StartAction::LocatePostgres {
            announcements: vec![
                "Starting postgres node at 'postgresql://cloud_admin@127.0.0.1:55432/postgres'"
                    .to_string(),
                "Also at 'postgresql://test@127.0.0.1:55432/neondb'".to_string(),
            ],
        }
    );
    assert_eq!(act(7), StartAction::Launch);
    assert_eq!(
        act(8),
        StartAction::WriteFile {
            path: dir().join("compute_ctl.pid"),
            contents: "4711".to_string(),
        }
    );
    assert_eq!(
        act(9),
        StartAction::PollStatus {
            request: HttpRequest {
                method: HttpMethod::Get,
                url: "http://0.0.0.0:55433/status".to_string(),
                claims: Some(ComputeClaims {
                    compute_id: Some("main".to_string()),
                    scope: None,
                    audience: None,
                }),
                timeout_seconds: None,
            },
        }
    );
    assert_eq!(ep.start_action(&args(), &StartState::Sleeping), StartAction::Sleep { millis: 100 });
    assert_eq!(ep.start_action(&args(), &StartState::Running), StartAction::Finish);
}

#[test]
fn only_the_admin_is_announced_without_test_user() {
    let mut args = args();
    args.create_test_user = false;
    match endpoint(None).start_action(&args, &StartState::LocatingPostgres) {
        StartAction::LocatePostgres { announcements } => assert_eq!(announcements.len(), 1),
        action => panic!("{action:?}"),
    }
}

#[test]
fn unreadable_conf_ends_the_start() {
    let ep = endpoint(None);
    let read = StartEvent::ConfRead { read: FileRead::Content(vec![0x80]) };
    assert_eq!(
        run(&ep, &args(), vec![probed(false, false), read]),
        failed(
            EndpointError::NotUtf8 {
                cause: "invalid utf-8 sequence of 1 bytes from index 0".to_string(),
            },
            false
        )
    );
}

#[test]
fn missing_conf_is_an_empty_conf() {
    let read = StartEvent::ConfRead { read: FileRead::NotFound };
    assert_eq!(
        run(&endpoint(None), &args(), vec![probed(false, false), read]),
        StartState::ClearingPgdata { conf: String::new() }
    );
}

#[test]
fn unknown_safekeeper_ends_the_start() {
    let mut args = args();
    args.safekeepers = vec![NodeId(2), NodeId(3)];
    let mut events = preparation();
    events.truncate(3);
    assert_eq!(
        run(&endpoint(None), &args, events),
        failed(EndpointError::SafekeeperMissing { id: NodeId(3) }, false)
    );
}

#[test]
fn missing_shard_ends_the_start() {
    let mut args = args();
    args.pageserver_conninfo.shards = ShardMap::new();
    let mut events = preparation();
    events.truncate(4);
    assert_eq!(
        run(&endpoint(None), &args, events),
        failed(EndpointError::ShardMissing { shard: ShardIndex::unsharded() }, false)
    );
}

fn fresh_cluster(conf: &str) -> Cluster {
    Cluster {
        cluster_id: None,
        name: None,
        state: None,
        roles: vec![Role { name: "test".to_string(), encrypted_password: None, options: None }],
        databases: vec![Database {
            name: "neondb".to_string(),
            owner: "test".to_string(),
            options: None,
            restrict_conn: false,
            invalid: false,
        }],
        settings: None,
        postgresql_conf: Some(conf.to_string()),
    }
}

#[test]
fn configuration_is_complete() {
    let ep = endpoint(None);
    let mut events = preparation();
    events.truncate(3);
    let extensions = OpaqueJson { text: "{}".to_string() };
    events.push(StartEvent::ExtensionsRead { remote_extensions: Some(extensions) });
    let wanted = ComputeSpec {
        skip_pg_catalog_updates: true,
        operation_uuid: None,
        features: vec![ComputeFeature { name: "f".to_string() }],
        swap_size_bytes: None,
        disk_quota_bytes: None,
        disable_lfc_resizing: None,
        cluster: fresh_cluster("port=1\n"),
        delta_operations: None,
        tenant_id: Some(TenantId { text: "aa".to_string() }),
        timeline_id: Some(TimelineId { text: "bb".to_string() }),
        project_id: None,
        branch_id: None,
        endpoint_id: Some("main".to_string()),
        mode: ComputeMode::Primary,
        pageserver_connection_info: Some(conninfo(Some("postgres://ps"))),
        pageserver_connstring: Some("postgres://ps".to_string()),
        safekeepers_generation: Some(5),
        safekeeper_connstrings: vec!["127.0.0.1:7677".to_string()],
        storage_auth_token: Some("secret".to_string()),
        remote_extensions: Some(OpaqueJson { text: "{}".to_string() }),
        pgbouncer_settings: None,
        shard_stripe_size: Some(ShardStripeSize(32)),
        local_proxy_config: None,
        reconfigure_concurrency: 1,
        drop_subscriptions_before_start: true,
        audit_log_level: ComputeAudit::Disabled,
        logs_export_host: None,
        endpoint_storage_addr: Some("http://127.0.0.1:9993".to_string()),
        endpoint_storage_token: Some("storage".to_string()),
        autoprewarm: true,
        offload_lfc_interval_seconds: NonZeroSeconds::new(60),
        suspend_timeout_seconds: -1,
        databricks_settings: None,
    };
    let compute_ctl_config = ComputeCtlConfig { jwks: JwkSet { keys: Vec::new() }, tls: None };
    assert_eq!(
        run(&ep, &args(), events),
        StartState::WritingConfig {
            config: ComputeConfig { spec: Some(wanted), compute_ctl_config },
        }
    );
}

#[test]
fn pageservers_without_libpq_have_no_connstring() {
    let mut args = args();
    args.pageserver_conninfo = conninfo(None);
    assert_eq!(written_config(&endpoint(None), &args).pageserver_connstring, None);
}

#[test]
fn test_user_is_added_to_a_cluster_of_its_own() {
    let own = Cluster {
        cluster_id: Some("c".to_string()),
        name: Some("n".to_string()),
        state: None,
        roles: vec![Role { name: "r".to_string(), encrypted_password: None, options: None }],
        databases: Vec::new(),
        settings: None,
        postgresql_conf: Some("old".to_string()),
    };
    let cluster = written_config(&endpoint(Some(own)), &args()).cluster;
    assert_eq!(cluster.cluster_id, Some("c".to_string()));
    assert_eq!(cluster.roles.len(), 2);
    assert_eq!(cluster.roles[0].name, "r");
    assert_eq!(cluster.roles[1].name, "test");
    assert_eq!(cluster.databases, fresh_cluster("").databases);
    assert_eq!(cluster.postgresql_conf, Some("port=1\n".to_string()));
}

#[test]
fn no_test_user_unless_asked_for() {
    let mut args = args();
    args.create_test_user = false;
    let cluster = written_config(&endpoint(None), &args).cluster;
    assert_eq!(cluster.roles, Vec::new());
    assert_eq!(cluster.databases, Vec::new());
}

fn launch(ep: &Endpoint, args: &EndpointStartArgs) -> CommandLine {
    let mut events = preparation();
    events.truncate(7);
    match run(ep, args, events) {
        StartState::Launching { command } => command,
        state => panic!("{state:?}"),
    }
}

#[test]
fn compute_ctl_is_launched_with_all_arguments() {
    let ep = endpoint(None);
    let text = |s: &str| CommandArg::Text(s.to_string());
    assert_eq!(
        launch(&ep, &args()),
        CommandLine {
            program: ChildPath::root("/neon/bin").join("compute_ctl"),
            args: vec![
                text("--external-http-port"),
                text("55433"),
                text("--internal-http-port"),
                text("55434"),
                text("--pgdata"),
                CommandArg::Path(ep.pgdata()),
                text("--connstr"),
                text("postgresql://cloud_admin@127.0.0.1:55432/postgres"),
                text("--config"),
                CommandArg::Path(ep.file(EndpointFile::ConfigJson)),
                text("--pgbin"),
                CommandArg::Path(ChildPath::root("/pg/v16/bin").join("postgres")),
                text("--compute-id"),
                text("main"),
                text("--remote-ext-base-url"),
                text("http://ext"),
                text("--dev"),
                text("--privileged-role-name"),
                text("boss"),
            ],
            env_clear: false,
            envs: Vec::new(),
        }
    );
}

#[test]
fn compute_ctl_is_launched_without_optional_arguments() {
    let mut ep = endpoint(None);
    ep.privileged_role_name = None;
    let mut args = args();
    args.remote_ext_base_url = None;
    args.dev = false;
    assert_eq!(launch(&ep, &args).args.len(), 14);
}

#[test]
fn failure_before_launch_kills_nothing() {
    let ep = endpoint(None);
    for n in [2, 4, 5, 6, 7] {
        let state = ep.start(&args(), prepared(n), io_failed());
        let error = EndpointError::Io { cause: "disk full".to_string() };
        assert_eq!(state, failed(error, false));
        assert_eq!(ep.start_action(&args(), &state), StartAction::Finish);
    }
}

#[test]
fn failure_after_launch_kills_the_child() {
    let ep = endpoint(None);
    let state = ep.start(&args(), prepared(8), io_failed());
    assert_eq!(state, failed(EndpointError::Io { cause: "disk full".to_string() }, true));
    assert_eq!(ep.start_action(&args(), &state), StartAction::KillChild);
}

#[test]
fn compute_that_runs_is_started() {
    // However long it took.
    assert_eq!(polled_once(polled(ComputeStatus::Running, None, 5_000)), StartState::Running);
}

#[test]
fn initialising_compute_is_waited_for() {
    assert_eq!(polled_once(polled(ComputeStatus::Init, None, 1_000)), StartState::Sleeping);
    assert_eq!(
        polled_once(polled(ComputeStatus::Init, None, 1_001)),
        failed(EndpointError::InitTimedOut, true)
    );
}

#[test]
fn silent_compute_is_waited_for() {
    assert_eq!(polled_once(silent(1_000)), StartState::Sleeping);
    assert_eq!(
        polled_once(silent(1_001)),
        failed(EndpointError::ConnectTimedOut { cause: "connection refused".to_string() }, true)
    );
}

#[test]
fn failed_compute_says_why() {
    assert_eq!(
        polled_once(polled(ComputeStatus::Failed, Some("no disk"), 0)),
        failed(EndpointError::StartupFailed { reason: Some("no disk".to_string()) }, true)
    );
}

#[test]
fn other_statuses_are_unexpected() {
    for status in [
        ComputeStatus::Empty,
        ComputeStatus::ConfigurationPending,
        ComputeStatus::Configuration,
        ComputeStatus::TerminationPendingFast,
        ComputeStatus::TerminationPendingImmediate,
        ComputeStatus::Terminated,
        ComputeStatus::RefreshConfigurationPending,
        ComputeStatus::RefreshConfiguration,
    ] {
        assert_eq!(
            polled_once(polled(status, None, 0)),
            failed(EndpointError::UnexpectedStatus { status }, true)
        );
    }
}

#[test]
fn compute_is_asked_again_after_a_pause() {
    let mut events = preparation();
    events.push(silent(0));
    events.push(StartEvent::Slept);
    events.push(polled(ComputeStatus::Init, None, 100));
    events.push(StartEvent::Slept);
    assert_eq!(run(&endpoint(None), &args(), events), StartState::Polling);
}

#[test]
fn events_out_of_turn_change_nothing() {
    let ep = endpoint(None);
    for n in 0..10 {
        let event = if n == 2 { StartEvent::Slept } else { StartEvent::PgdataCleared };
        assert_eq!(ep.start(&args(), prepared(n), event), prepared(n));
    }
    assert_eq!(
        ep.start(&args(), StartState::Running, io_failed()),
        StartState::Running
    );
}

#[test]
fn start_leaves_conf_files_alone() {
    let ep = endpoint(None);
    for n in 0..10 {
        let touched = match ep.start_action(&args(), &prepared(n)) {
            StartAction::RemoveDir { path } => path,
            StartAction::WriteConfig { path } => path,
            StartAction::OpenLog { path } => path,
            StartAction::WriteFile { path, .. } => path,
            _ => continue,
        };
        assert_ne!(touched, ep.file(EndpointFile::EndpointJson));
        assert_ne!(touched, ep.file(EndpointFile::PostgresqlConf));
        assert_ne!(touched, ep.file(EndpointFile::RemoteExtensionsSpec));
        assert_ne!(touched, ep.endpoint_path());
    }
}

#[test]
fn stop_waits_for_what_was_started() {
    let ep = endpoint(None);
    let mode = EndpointTerminateMode::Fast;
    let (written, contents) = match ep.start_action(&args(), &prepared(8)) {
        StartAction::WriteFile { path, contents } => (path, contents),
        action => panic!("{action:?}"),
    };
    let state = StopState::ReadingPid { lsn: None };
    assert_eq!(
        ep.stop_action(mode, false, "compute", &state),
        StopAction::ReadPid { path: written }
    );
    assert_eq!(
        ep.stop(mode, false, state, StopEvent::PidRead { text: contents }),
        StopState::AwaitingExit { lsn: None, pid: 4711 }
    );
}

#[test]
fn compute_ctl_is_pointed_to_its_files() {
    let ep = endpoint(None);
    let arguments = launch(&ep, &args()).args;
    for n in [2, 4] {
        let path = match ep.start_action(&args(), &prepared(n)) {
            StartAction::RemoveDir { path } => path,
            StartAction::WriteConfig { path } => path,
            action => panic!("{action:?}"),
        };
        assert!(arguments.contains(&CommandArg::Path(path)));
    }
}

#[test]
fn reconfiguring_as_started_changes_nothing() {
    let ep = endpoint(None);
    let args = args();
    let config = || ComputeConfig {
        spec: Some(written_config(&ep, &args)),
        compute_ctl_config: ComputeCtlConfig { jwks: JwkSet { keys: Vec::new() }, tls: None },
    };
    let request = ep
        .reconfigure(
            config(),
            "port=1\n".to_string(),
            Some(&args.pageserver_conninfo),
            Some(vec![NodeId(2)]),
            args.safekeepers_generation,
        )
        .unwrap();
    assert_eq!(Some(request.spec), config().spec);
}
