//! Starting an endpoint.
//!
//! A start alternates between work outside the library (looking at files and processes, running
//! `compute_ctl`, asking it how it is doing) and decisions. [`StartState`] says how far a start
//! has come, [`Endpoint::start_action`] what is to be done outside next, and
//! [`Endpoint::start`] where the outcome of that leads.
use vstd::prelude::*;
use vstd::string::*;
use vstd::utf8::{decode_utf8, encode_utf8, valid_utf8};

use crate::address::SocketAddress;
use crate::command::{path_arg, text_arg, CommandArgView, CommandLine, CommandLineView};
use crate::compute::{
    Cluster, ClusterView, ComputeAudit, ComputeAuditView, ComputeConfig, ComputeConfigView,
    ComputeSpec, ComputeSpecView, ComputeStatus, ComputeStatusResponse, Database, DatabaseView,
    OpaqueJson, Role, RoleView, StatusResponseView,
};
use crate::conninfo::{ConnectionInfoView, PageserverConnectionInfo};
use crate::control::{
    has_shards, reconfigured, status_request, HttpRequest, HttpRequestView,
};
use crate::endpoint::{
    law_files_are_apart, lemma_file_is_not_pgdata, safekeeper_connstrings, Endpoint, EndpointFile,
    EndpointView,
};
use crate::error::{EndpointError, EndpointErrorView};
use crate::ids::{NodeId, NonZeroSeconds, SafekeeperGeneration};
use crate::outside::{text_from_utf8, utf8_error_text};
use crate::path::{root_path, ChildPath, ChildPathView};
use crate::status::EndpointStatus;
use crate::text::{decimal, to_decimal};

verus! {

/// How long to wait for Postgres to accept a connection, in milliseconds.
pub const PROBE_TIMEOUT_MILLIS: u64 = 300;

/// How long to wait between two questions how the compute is doing, in milliseconds.
pub const ATTEMPT_INTERVAL_MILLIS: u64 = 100;

/// What an endpoint is started with.
#[derive(Debug, PartialEq, Eq)]
pub struct EndpointStartArgs {
    pub auth_token: Option<String>,
    pub endpoint_storage_token: String,
    pub endpoint_storage_addr: String,
    pub safekeepers_generation: Option<SafekeeperGeneration>,
    pub safekeepers: Vec<NodeId>,
    pub pageserver_conninfo: PageserverConnectionInfo,
    pub remote_ext_base_url: Option<String>,
    pub create_test_user: bool,
    /// How long the compute may take to come up, in nanoseconds.
    pub start_timeout: u128,
    pub autoprewarm: bool,
    pub offload_lfc_interval_seconds: Option<NonZeroSeconds>,
    pub dev: bool,
}

/// What [`EndpointStartArgs`] denote.
#[verifier::ext_equal]
pub struct StartArgsView {
    pub auth_token: Option<Seq<char>>,
    pub endpoint_storage_token: Seq<char>,
    pub endpoint_storage_addr: Seq<char>,
    pub safekeepers_generation: Option<SafekeeperGeneration>,
    pub safekeepers: Seq<NodeId>,
    pub pageserver_conninfo: ConnectionInfoView,
    pub remote_ext_base_url: Option<Seq<char>>,
    pub create_test_user: bool,
    pub start_timeout: u128,
    pub autoprewarm: bool,
    pub offload_lfc_interval_seconds: Option<u64>,
    pub dev: bool,
}

impl View for EndpointStartArgs {
    type V = StartArgsView;

    open spec fn view(&self) -> StartArgsView {
        StartArgsView {
            auth_token: self.auth_token.deep_view(),
            endpoint_storage_token: self.endpoint_storage_token@,
            endpoint_storage_addr: self.endpoint_storage_addr@,
            safekeepers_generation: self.safekeepers_generation,
            safekeepers: self.safekeepers@,
            pageserver_conninfo: self.pageserver_conninfo@,
            remote_ext_base_url: self.remote_ext_base_url.deep_view(),
            create_test_user: self.create_test_user,
            start_timeout: self.start_timeout,
            autoprewarm: self.autoprewarm,
            offload_lfc_interval_seconds: self.offload_lfc_interval_seconds.deep_view(),
            dev: self.dev,
        }
    }
}

/// What reading a file came to.
#[derive(Debug, PartialEq, Eq)]
pub enum FileRead {
    Content(Vec<u8>),
    NotFound,
    Failed(String),
}

/// What a [`FileRead`] denotes.
#[verifier::ext_equal]
pub enum FileReadView {
    Content(Seq<u8>),
    NotFound,
    Failed(Seq<char>),
}

impl View for FileRead {
    type V = FileReadView;

    open spec fn view(&self) -> FileReadView {
        match self {
            FileRead::Content(bytes) => FileReadView::Content(bytes@),
            FileRead::NotFound => FileReadView::NotFound,
            FileRead::Failed(cause) => FileReadView::Failed(cause@),
        }
    }
}

/// The Postgres configuration that a `postgresql.conf` file holds. A file that does not exist
/// holds the empty configuration.
pub open spec fn conf_text(read: FileReadView) -> Result<Seq<char>, EndpointErrorView> {
    match read {
        FileReadView::Content(bytes) => if valid_utf8(bytes) {
            Ok(decode_utf8(bytes))
        } else {
            Err(EndpointErrorView::NotUtf8 { cause: utf8_error_text(bytes) })
        },
        FileReadView::NotFound => Ok(Seq::empty()),
        FileReadView::Failed(cause) => Err(EndpointErrorView::Io { cause }),
    }
}

/// A configuration that was written to `postgresql.conf` is what is read from it.
pub proof fn law_conf_reads_back(conf: Seq<char>)
    ensures
        conf_text(FileReadView::Content(encode_utf8(conf))) == Ok::<_, EndpointErrorView>(conf),
{
    vstd::utf8::encode_utf8_valid_utf8(conf);
    vstd::utf8::encode_utf8_decode_utf8(conf);
}

/// The role that tests log in with.
pub open spec fn test_role() -> RoleView {
    RoleView { name: "test"@, encrypted_password: None, options: None }
}

/// The database that tests use.
pub open spec fn test_database() -> DatabaseView {
    DatabaseView {
        name: "neondb"@,
        owner: "test"@,
        options: None,
        restrict_conn: false,
        invalid: false,
    }
}

/// A cluster with the test user and its database added, if they are asked for.
pub open spec fn with_test_user(cluster: ClusterView, create_test_user: bool) -> ClusterView {
    if create_test_user {
        ClusterView {
            roles: cluster.roles.push(test_role()),
            databases: cluster.databases.push(test_database()),
            ..cluster
        }
    } else {
        cluster
    }
}

/// The cluster without roles and databases.
pub open spec fn empty_cluster() -> ClusterView {
    ClusterView {
        cluster_id: None,
        name: None,
        state: None,
        roles: Seq::empty(),
        databases: Seq::empty(),
        settings: None,
        postgresql_conf: None,
    }
}

/// The cluster that an endpoint is started with: its own if it has one, with the test user added
/// if asked for, and with the current Postgres configuration.
pub open spec fn start_cluster(
    own: Option<ClusterView>,
    create_test_user: bool,
    conf: Seq<char>,
) -> ClusterView {
    let cluster = match own {
        Some(own) => own,
        None => empty_cluster(),
    };
    ClusterView { postgresql_conf: Some(conf), ..with_test_user(cluster, create_test_user) }
}

/// The specification that an endpoint is started with.
pub open spec fn start_spec(
    ep: EndpointView,
    args: StartArgsView,
    conf: Seq<char>,
    safekeeper_connstrings: Seq<Seq<char>>,
    pageserver_connstring: Option<Seq<char>>,
    remote_extensions: Option<Seq<char>>,
) -> ComputeSpecView {
    ComputeSpecView {
        skip_pg_catalog_updates: ep.skip_pg_catalog_updates,
        operation_uuid: None,
        features: ep.features,
        swap_size_bytes: None,
        disk_quota_bytes: None,
        disable_lfc_resizing: None,
        cluster: start_cluster(ep.cluster, args.create_test_user, conf),
        delta_operations: None,
        tenant_id: Some(ep.tenant_id),
        timeline_id: Some(ep.timeline_id),
        project_id: None,
        branch_id: None,
        endpoint_id: Some(ep.endpoint_id),
        mode: ep.mode,
        pageserver_connection_info: Some(args.pageserver_conninfo),
        pageserver_connstring,
        safekeepers_generation: match args.safekeepers_generation {
            Some(generation) => Some(generation.0),
            None => None,
        },
        safekeeper_connstrings,
        storage_auth_token: args.auth_token,
        remote_extensions,
        pgbouncer_settings: None,
        shard_stripe_size: args.pageserver_conninfo.stripe_size,
        local_proxy_config: None,
        reconfigure_concurrency: ep.reconfigure_concurrency,
        drop_subscriptions_before_start: ep.drop_subscriptions_before_start,
        audit_log_level: ComputeAuditView::Disabled,
        logs_export_host: None,
        endpoint_storage_addr: Some(args.endpoint_storage_addr),
        endpoint_storage_token: Some(args.endpoint_storage_token),
        autoprewarm: args.autoprewarm,
        offload_lfc_interval_seconds: args.offload_lfc_interval_seconds,
        suspend_timeout_seconds: -1i64,
        databricks_settings: None,
    }
}

/// How `compute_ctl` is launched.
pub open spec fn launch_command(
    ep: EndpointView,
    args: StartArgsView,
    pg_bin_dir: Seq<char>,
) -> CommandLineView {
    CommandLineView {
        program: root_path(ep.env.neon_distrib_dir).join("compute_ctl"@),
        args: seq![
            text_arg("--external-http-port"@),
            text_arg(decimal(ep.external_http_address.port as nat)),
            text_arg("--internal-http-port"@),
            text_arg(decimal(ep.internal_http_address.port as nat)),
            text_arg("--pgdata"@),
            path_arg(ep.pgdata()),
            text_arg("--connstr"@),
            text_arg(ep.connstr("cloud_admin"@, "postgres"@)),
            text_arg("--config"@),
            path_arg(ep.file(EndpointFile::ConfigJson)),
            text_arg("--pgbin"@),
            path_arg(root_path(pg_bin_dir).join("postgres"@)),
            text_arg("--compute-id"@),
            text_arg(ep.endpoint_id),
        ] + option_args("--remote-ext-base-url"@, args.remote_ext_base_url) + if args.dev {
            seq![text_arg("--dev"@)]
        } else {
            seq![]
        } + option_args("--privileged-role-name"@, ep.privileged_role_name),
        env_clear: false,
        envs: Seq::empty(),
    }
}

/// An option with its value, if there is a value.
pub open spec fn option_args(option: Seq<char>, value: Option<Seq<char>>) -> Seq<CommandArgView> {
    match value {
        Some(value) => seq![text_arg(option), text_arg(value)],
        None => seq![],
    }
}

/// What is announced when an endpoint is about to be launched: where to connect.
pub open spec fn announcements(ep: EndpointView, create_test_user: bool) -> Seq<Seq<char>> {
    seq!["Starting postgres node at '"@ + ep.connstr("cloud_admin"@, "postgres"@) + "'"@]
        + if create_test_user {
        seq!["Also at '"@ + ep.connstr("test"@, "neondb"@) + "'"@]
    } else {
        seq![]
    }
}

/// How far a start has come.
#[derive(Debug, PartialEq, Eq)]
pub enum StartState {
    /// Looking whether the endpoint runs already.
    ProbingStatus,
    /// Reading the endpoint's `postgresql.conf`.
    ReadingConf,
    /// Removing what an earlier launch left behind: a compute always starts from scratch.
    ClearingPgdata { conf: String },
    /// Reading which remote extensions there are.
    ReadingExtensions { conf: String, safekeeper_connstrings: Vec<String> },
    /// Writing the file that `compute_ctl` is configured with.
    WritingConfig { config: ComputeConfig },
    /// Opening the file that takes the output of `compute_ctl`.
    OpeningLog,
    /// Finding the directory of the Postgres programs.
    LocatingPostgres,
    /// Launching `compute_ctl`.
    Launching { command: CommandLine },
    /// Writing down the id of the process, so that it can be waited for when stopping.
    WritingPid { pid: u32 },
    /// Asking the compute how it is doing.
    Polling,
    /// Waiting before asking again.
    Sleeping,
    /// The compute is up.
    Running,
    /// The start failed. If a process was launched, it is not left behind.
    Failed { error: EndpointError, kill_child: bool },
}

/// What a [`StartState`] denotes.
#[verifier::ext_equal]
pub enum StartStateView {
    ProbingStatus,
    ReadingConf,
    ClearingPgdata { conf: Seq<char> },
    ReadingExtensions { conf: Seq<char>, safekeeper_connstrings: Seq<Seq<char>> },
    WritingConfig { config: ComputeConfigView },
    OpeningLog,
    LocatingPostgres,
    Launching { command: CommandLineView },
    WritingPid { pid: u32 },
    Polling,
    Sleeping,
    Running,
    Failed { error: EndpointErrorView, kill_child: bool },
}

impl View for StartState {
    type V = StartStateView;

    open spec fn view(&self) -> StartStateView {
        match self {
            StartState::ProbingStatus => StartStateView::ProbingStatus,
            StartState::ReadingConf => StartStateView::ReadingConf,
            StartState::ClearingPgdata { conf } => StartStateView::ClearingPgdata { conf: conf@ },
            StartState::ReadingExtensions { conf, safekeeper_connstrings } => {
                StartStateView::ReadingExtensions {
                    conf: conf@,
                    safekeeper_connstrings: safekeeper_connstrings.deep_view(),
                }
            },
            StartState::WritingConfig { config } => StartStateView::WritingConfig {
                config: config@,
            },
            StartState::OpeningLog => StartStateView::OpeningLog,
            StartState::LocatingPostgres => StartStateView::LocatingPostgres,
            StartState::Launching { command } => StartStateView::Launching { command: command@ },
            StartState::WritingPid { pid } => StartStateView::WritingPid { pid: *pid },
            StartState::Polling => StartStateView::Polling,
            StartState::Sleeping => StartStateView::Sleeping,
            StartState::Running => StartStateView::Running,
            StartState::Failed { error, kill_child } => StartStateView::Failed {
                error: error@,
                kill_child: *kill_child,
            },
        }
    }
}

impl StartState {
    /// A start that has done nothing yet.
    pub fn new() -> (r: StartState)
        ensures
            r@ == StartStateView::ProbingStatus,
    {
        StartState::ProbingStatus
    }
}

/// What came of the work of a [`StartState`].
#[derive(Debug, PartialEq, Eq)]
pub enum StartEvent {
    StatusProbed { has_pidfile: bool, can_connect: bool },
    ConfRead { read: FileRead },
    PgdataCleared,
    /// `None` if the file is missing or cannot be made sense of.
    ExtensionsRead { remote_extensions: Option<OpaqueJson> },
    ConfigWritten,
    LogOpened,
    PostgresLocated { pg_bin_dir: String },
    Launched { pid: u32 },
    PidWritten,
    /// `elapsed` is the time since polling began, in nanoseconds.
    StatusPolled { reply: Result<ComputeStatusResponse, String>, elapsed: u128 },
    Slept,
    /// The work could not be done.
    IoFailed { cause: String },
}

/// What a [`StartEvent`] denotes.
#[verifier::ext_equal]
pub enum StartEventView {
    StatusProbed { has_pidfile: bool, can_connect: bool },
    ConfRead { read: FileReadView },
    PgdataCleared,
    ExtensionsRead { remote_extensions: Option<Seq<char>> },
    ConfigWritten,
    LogOpened,
    PostgresLocated { pg_bin_dir: Seq<char> },
    Launched { pid: u32 },
    PidWritten,
    StatusPolled { reply: Result<StatusResponseView, Seq<char>>, elapsed: u128 },
    Slept,
    IoFailed { cause: Seq<char> },
}

/// What the result of asking a compute how it is doing denotes.
pub open spec fn reply_view(reply: Result<ComputeStatusResponse, String>) -> Result<
    StatusResponseView,
    Seq<char>,
> {
    match reply {
        Ok(response) => Ok(response@),
        Err(cause) => Err(cause@),
    }
}

impl View for StartEvent {
    type V = StartEventView;

    open spec fn view(&self) -> StartEventView {
        match self {
            StartEvent::StatusProbed { has_pidfile, can_connect } => StartEventView::StatusProbed {
                has_pidfile: *has_pidfile,
                can_connect: *can_connect,
            },
            StartEvent::ConfRead { read } => StartEventView::ConfRead { read: read@ },
            StartEvent::PgdataCleared => StartEventView::PgdataCleared,
            StartEvent::ExtensionsRead { remote_extensions } => StartEventView::ExtensionsRead {
                remote_extensions: remote_extensions.deep_view(),
            },
            StartEvent::ConfigWritten => StartEventView::ConfigWritten,
            StartEvent::LogOpened => StartEventView::LogOpened,
            StartEvent::PostgresLocated { pg_bin_dir } => StartEventView::PostgresLocated {
                pg_bin_dir: pg_bin_dir@,
            },
            StartEvent::Launched { pid } => StartEventView::Launched { pid: *pid },
            StartEvent::PidWritten => StartEventView::PidWritten,
            StartEvent::StatusPolled { reply, elapsed } => StartEventView::StatusPolled {
                reply: reply_view(*reply),
                elapsed: *elapsed,
            },
            StartEvent::Slept => StartEventView::Slept,
            StartEvent::IoFailed { cause } => StartEventView::IoFailed { cause: cause@ },
        }
    }
}

/// The start is over, with an error.
pub open spec fn failed(error: EndpointErrorView, kill_child: bool) -> StartStateView {
    StartStateView::Failed { error, kill_child }
}

/// What an answer of the compute means. While it initialises, or cannot be reached, it is asked
/// again until the time is up. Whatever else it says, the start is over.
pub open spec fn after_poll(
    args: StartArgsView,
    reply: Result<StatusResponseView, Seq<char>>,
    elapsed: u128,
) -> StartStateView {
    let in_time = elapsed <= args.start_timeout;
    match reply {
        Ok(response) => match response.status {
            ComputeStatus::Running => StartStateView::Running,
            ComputeStatus::Init => if in_time {
                StartStateView::Sleeping
            } else {
                failed(EndpointErrorView::InitTimedOut, true)
            },
            ComputeStatus::Failed => failed(
                EndpointErrorView::StartupFailed { reason: response.error },
                true,
            ),
            status => failed(EndpointErrorView::UnexpectedStatus { status }, true),
        },
        Err(cause) => if in_time {
            StartStateView::Sleeping
        } else {
            failed(EndpointErrorView::ConnectTimedOut { cause }, true)
        },
    }
}

/// Whether `event` is an outcome of the work of `state`.
pub open spec fn awaits(state: StartStateView, event: StartEventView) -> bool {
    match state {
        StartStateView::ProbingStatus => event is StatusProbed,
        StartStateView::ReadingConf => event is ConfRead,
        StartStateView::ClearingPgdata { .. } => event is PgdataCleared || event is IoFailed,
        StartStateView::ReadingExtensions { .. } => event is ExtensionsRead,
        StartStateView::WritingConfig { .. } => event is ConfigWritten || event is IoFailed,
        StartStateView::OpeningLog => event is LogOpened || event is IoFailed,
        StartStateView::LocatingPostgres => event is PostgresLocated || event is IoFailed,
        StartStateView::Launching { .. } => event is Launched || event is IoFailed,
        StartStateView::WritingPid { .. } => event is PidWritten || event is IoFailed,
        StartStateView::Polling => event is StatusPolled,
        StartStateView::Sleeping => event is Slept,
        StartStateView::Running => false,
        StartStateView::Failed { .. } => false,
    }
}

/// Whether `compute_ctl` was launched and is this start's responsibility.
pub open spec fn holds_child(state: StartStateView) -> bool {
    state is WritingPid || state is Polling || state is Sleeping
}

/// Where an awaited event leads.
pub open spec fn advanced(
    ep: EndpointView,
    args: StartArgsView,
    state: StartStateView,
    event: StartEventView,
) -> StartStateView {
    match event {
        StartEventView::StatusProbed { has_pidfile, can_connect } => if EndpointStatus::of(
            has_pidfile,
            can_connect,
        ) == EndpointStatus::Running {
            failed(EndpointErrorView::AlreadyRunning, false)
        } else {
            StartStateView::ReadingConf
        },
        StartEventView::ConfRead { read } => match conf_text(read) {
            Ok(conf) => StartStateView::ClearingPgdata { conf },
            Err(error) => failed(error, false),
        },
        StartEventView::PgdataCleared => match safekeeper_connstrings(ep, args.safekeepers) {
            Ok(list) => StartStateView::ReadingExtensions {
                conf: state->ClearingPgdata_conf,
                safekeeper_connstrings: list,
            },
            Err(error) => failed(error, false),
        },
        StartEventView::ExtensionsRead { remote_extensions } => {
            match args.pageserver_conninfo.connstring() {
                Ok(connstring) => StartStateView::WritingConfig {
                    config: ComputeConfigView {
                        spec: Some(
                            start_spec(
                                ep,
                                args,
                                state->ReadingExtensions_conf,
                                state->safekeeper_connstrings,
                                connstring,
                                remote_extensions,
                            ),
                        ),
                        compute_ctl_config: ep.compute_ctl_config,
                    },
                },
                Err(error) => failed(error, false),
            }
        },
        StartEventView::ConfigWritten => StartStateView::OpeningLog,
        StartEventView::LogOpened => StartStateView::LocatingPostgres,
        StartEventView::PostgresLocated { pg_bin_dir } => StartStateView::Launching {
            command: launch_command(ep, args, pg_bin_dir),
        },
        StartEventView::Launched { pid } => StartStateView::WritingPid { pid },
        StartEventView::PidWritten => StartStateView::Polling,
        StartEventView::StatusPolled { reply, elapsed } => after_poll(args, reply, elapsed),
        StartEventView::Slept => StartStateView::Polling,
        StartEventView::IoFailed { cause } => failed(
            EndpointErrorView::Io { cause },
            holds_child(state),
        ),
    }
}

/// Where an event leads. One that the state does not await changes nothing.
pub open spec fn start_next(
    ep: EndpointView,
    args: StartArgsView,
    state: StartStateView,
    event: StartEventView,
) -> StartStateView {
    if awaits(state, event) {
        advanced(ep, args, state, event)
    } else {
        state
    }
}

/// What is to be done outside the library for a [`StartState`].
#[derive(Debug, PartialEq, Eq)]
pub enum StartAction {
    /// See whether the file exists and whether the address accepts a connection in time.
    ProbeStatus { pidfile: ChildPath, address: SocketAddress, timeout_millis: u64 },
    ReadConf { path: ChildPath },
    /// Remove a directory, if it exists.
    RemoveDir { path: ChildPath },
    ReadExtensions { path: ChildPath },
    /// Write the state's configuration to a file.
    WriteConfig { path: ChildPath },
    /// Open a file for appending, and create it if need be.
    OpenLog { path: ChildPath },
    /// Print the announcements and find the directory of the Postgres programs.
    LocatePostgres { announcements: Vec<String> },
    /// Run the state's command, without input and with its output appended to the log.
    Launch,
    WriteFile { path: ChildPath, contents: String },
    PollStatus { request: HttpRequest },
    Sleep { millis: u64 },
    /// Kill the process that was launched, and wait for its end.
    KillChild,
    /// There is nothing left to do.
    Finish,
}

/// What a [`StartAction`] denotes.
#[verifier::ext_equal]
pub enum StartActionView {
    ProbeStatus { pidfile: ChildPathView, address: SocketAddress, timeout_millis: u64 },
    ReadConf { path: ChildPathView },
    RemoveDir { path: ChildPathView },
    ReadExtensions { path: ChildPathView },
    WriteConfig { path: ChildPathView },
    OpenLog { path: ChildPathView },
    LocatePostgres { announcements: Seq<Seq<char>> },
    Launch,
    WriteFile { path: ChildPathView, contents: Seq<char> },
    PollStatus { request: HttpRequestView },
    Sleep { millis: u64 },
    KillChild,
    Finish,
}

impl View for StartAction {
    type V = StartActionView;

    open spec fn view(&self) -> StartActionView {
        match self {
            StartAction::ProbeStatus { pidfile, address, timeout_millis } => {
                StartActionView::ProbeStatus {
                    pidfile: pidfile@,
                    address: *address,
                    timeout_millis: *timeout_millis,
                }
            },
            StartAction::ReadConf { path } => StartActionView::ReadConf { path: path@ },
            StartAction::RemoveDir { path } => StartActionView::RemoveDir { path: path@ },
            StartAction::ReadExtensions { path } => StartActionView::ReadExtensions { path: path@ },
            StartAction::WriteConfig { path } => StartActionView::WriteConfig { path: path@ },
            StartAction::OpenLog { path } => StartActionView::OpenLog { path: path@ },
            StartAction::LocatePostgres { announcements } => StartActionView::LocatePostgres {
                announcements: announcements.deep_view(),
            },
            StartAction::Launch => StartActionView::Launch,
            StartAction::WriteFile { path, contents } => StartActionView::WriteFile {
                path: path@,
                contents: contents@,
            },
            StartAction::PollStatus { request } => StartActionView::PollStatus {
                request: request@,
            },
            StartAction::Sleep { millis } => StartActionView::Sleep { millis: *millis },
            StartAction::KillChild => StartActionView::KillChild,
            StartAction::Finish => StartActionView::Finish,
        }
    }
}

/// What is to be done outside the library for a state.
pub open spec fn action_of(
    ep: EndpointView,
    args: StartArgsView,
    state: StartStateView,
) -> StartActionView {
    match state {
        StartStateView::ProbingStatus => StartActionView::ProbeStatus {
            pidfile: ep.postmaster_pid(),
            address: ep.pg_address,
            timeout_millis: PROBE_TIMEOUT_MILLIS,
        },
        StartStateView::ReadingConf => StartActionView::ReadConf {
            path: ep.file(EndpointFile::PostgresqlConf),
        },
        StartStateView::ClearingPgdata { .. } => StartActionView::RemoveDir { path: ep.pgdata() },
        StartStateView::ReadingExtensions { .. } => StartActionView::ReadExtensions {
            path: ep.file(EndpointFile::RemoteExtensionsSpec),
        },
        StartStateView::WritingConfig { .. } => StartActionView::WriteConfig {
            path: ep.file(EndpointFile::ConfigJson),
        },
        StartStateView::OpeningLog => StartActionView::OpenLog {
            path: ep.file(EndpointFile::ComputeLog),
        },
        StartStateView::LocatingPostgres => StartActionView::LocatePostgres {
            announcements: announcements(ep, args.create_test_user),
        },
        StartStateView::Launching { .. } => StartActionView::Launch,
        StartStateView::WritingPid { pid } => StartActionView::WriteFile {
            path: ep.file(EndpointFile::ComputeCtlPid),
            contents: decimal(pid as nat),
        },
        StartStateView::Polling => StartActionView::PollStatus { request: status_request(ep) },
        StartStateView::Sleeping => StartActionView::Sleep { millis: ATTEMPT_INTERVAL_MILLIS },
        StartStateView::Running => StartActionView::Finish,
        StartStateView::Failed { kill_child, .. } => if kill_child {
            StartActionView::KillChild
        } else {
            StartActionView::Finish
        },
    }
}

/// Adds the test user and its database to a cluster, if they are asked for.
fn add_test_user(cluster: &mut Cluster, create_test_user: bool)
    ensures
        final(cluster)@ == with_test_user(old(cluster)@, create_test_user),
{
    if create_test_user {
        cluster.roles.push(
            Role { name: "test".to_owned(), encrypted_password: None, options: None },
        );
        cluster.databases.push(
            Database {
                name: "neondb".to_owned(),
                owner: "test".to_owned(),
                options: None,
                restrict_conn: false,
                invalid: false,
            },
        );
    }
    assert(cluster@ =~~= with_test_user(old(cluster)@, create_test_user));
}

/// Decides what an answer of the compute means.
fn after_status(
    reply: Result<ComputeStatusResponse, String>,
    elapsed: u128,
    args: &EndpointStartArgs,
) -> (r: StartState)
    ensures
        r@ == after_poll(args@, reply_view(reply), elapsed),
{
    let in_time = elapsed <= args.start_timeout;
    match reply {
        Ok(response) => match response.status {
            ComputeStatus::Running => StartState::Running,
            ComputeStatus::Init => {
                if in_time {
                    StartState::Sleeping
                } else {
                    StartState::Failed { error: EndpointError::InitTimedOut, kill_child: true }
                }
            },
            ComputeStatus::Failed => StartState::Failed {
                error: EndpointError::StartupFailed { reason: response.error },
                kill_child: true,
            },
            status => StartState::Failed {
                error: EndpointError::UnexpectedStatus { status },
                kill_child: true,
            },
        },
        Err(cause) => {
            if in_time {
                StartState::Sleeping
            } else {
                StartState::Failed {
                    error: EndpointError::ConnectTimedOut { cause },
                    kill_child: true,
                }
            }
        },
    }
}

/// A start that is over because work outside the library failed.
fn io_failure(cause: String, kill_child: bool) -> (r: StartState)
    ensures
        r@ == failed(EndpointErrorView::Io { cause: cause@ }, kill_child),
{
    StartState::Failed { error: EndpointError::Io { cause }, kill_child }
}

impl Endpoint {
    /// The Postgres configuration that the endpoint's `postgresql.conf` holds.
    pub fn read_postgresql_conf(read: FileRead) -> (r: Result<String, EndpointError>)
        ensures
            match r {
                Ok(conf) => conf_text(read@) == Ok::<_, EndpointErrorView>(conf@),
                Err(error) => conf_text(read@) == Err::<Seq<char>, _>(error@),
            },
    {
        match read {
            FileRead::Content(bytes) => match text_from_utf8(bytes) {
                Ok(conf) => Ok(conf),
                Err(cause) => Err(EndpointError::NotUtf8 { cause }),
            },
            FileRead::NotFound => {
                let conf = String::new();
                assert(conf@ =~= Seq::<char>::empty());
                Ok(conf)
            },
            FileRead::Failed(cause) => Err(EndpointError::Io { cause }),
        }
    }

    /// The cluster that the endpoint is started with.
    fn start_cluster(&self, create_test_user: bool, conf: String) -> (r: Cluster)
        ensures
            r@ == start_cluster(self@.cluster, create_test_user, conf@),
    {
        let mut cluster = match &self.cluster {
            Some(own) => own.clone(),
            None => Cluster {
                cluster_id: None,
                name: None,
                state: None,
                roles: Vec::new(),
                databases: Vec::new(),
                settings: None,
                postgresql_conf: None,
            },
        };
        assert(self.cluster is None ==> cluster@ =~~= empty_cluster());
        add_test_user(&mut cluster, create_test_user);
        cluster.postgresql_conf = Some(conf);
        assert(cluster@ =~~= start_cluster(self@.cluster, create_test_user, conf@));
        cluster
    }

    /// The specification that the endpoint is started with.
    fn start_spec(
        &self,
        args: &EndpointStartArgs,
        conf: String,
        safekeeper_connstrings: Vec<String>,
        pageserver_connstring: Option<String>,
        remote_extensions: Option<OpaqueJson>,
    ) -> (r: ComputeSpec)
        ensures
            r@ == start_spec(
                self@,
                args@,
                conf@,
                safekeeper_connstrings.deep_view(),
                pageserver_connstring.deep_view(),
                remote_extensions.deep_view(),
            ),
    {
        let r = ComputeSpec {
            skip_pg_catalog_updates: self.skip_pg_catalog_updates,
            operation_uuid: None,
            features: self.features.clone(),
            swap_size_bytes: None,
            disk_quota_bytes: None,
            disable_lfc_resizing: None,
            cluster: self.start_cluster(args.create_test_user, conf),
            delta_operations: None,
            tenant_id: Some(self.tenant_id.clone()),
            timeline_id: Some(self.timeline_id.clone()),
            project_id: None,
            branch_id: None,
            endpoint_id: Some(self.endpoint_id.clone()),
            mode: self.mode.clone(),
            pageserver_connection_info: Some(args.pageserver_conninfo.clone()),
            pageserver_connstring,
            safekeepers_generation: match args.safekeepers_generation {
                Some(generation) => Some(generation.0),
                None => None,
            },
            safekeeper_connstrings,
            storage_auth_token: args.auth_token.clone(),
            remote_extensions,
            pgbouncer_settings: None,
            shard_stripe_size: args.pageserver_conninfo.stripe_size,
            local_proxy_config: None,
            reconfigure_concurrency: self.reconfigure_concurrency,
            drop_subscriptions_before_start: self.drop_subscriptions_before_start,
            audit_log_level: ComputeAudit::Disabled,
            logs_export_host: None,
            endpoint_storage_addr: Some(args.endpoint_storage_addr.clone()),
            endpoint_storage_token: Some(args.endpoint_storage_token.clone()),
            autoprewarm: args.autoprewarm,
            offload_lfc_interval_seconds: args.offload_lfc_interval_seconds,
            suspend_timeout_seconds: -1,
            databricks_settings: None,
        };
        assert(r@.features =~~= self@.features);
        assert(r@.storage_auth_token =~~= args@.auth_token);
        r
    }

    /// How `compute_ctl` is launched, with the directory of the Postgres programs.
    fn launch_command(&self, args: &EndpointStartArgs, pg_bin_dir: &str) -> (r: CommandLine)
        ensures
            r@ == launch_command(self@, args@, pg_bin_dir@),
    {
        let program = ChildPath::root(self.env.neon_distrib_dir.as_str()).join("compute_ctl");
        let mut cmd = CommandLine::new(program);
        cmd.arg("--external-http-port");
        cmd.arg(to_decimal(self.external_http_address.port as u64).as_str());
        cmd.arg("--internal-http-port");
        cmd.arg(to_decimal(self.internal_http_address.port as u64).as_str());
        cmd.arg("--pgdata");
        cmd.path(self.pgdata());
        cmd.arg("--connstr");
        cmd.arg(self.connstr("cloud_admin", "postgres").as_str());
        cmd.arg("--config");
        cmd.path(self.file(EndpointFile::ConfigJson));
        cmd.arg("--pgbin");
        cmd.path(ChildPath::root(pg_bin_dir).join("postgres"));
        cmd.arg("--compute-id");
        cmd.arg(self.endpoint_id.as_str());
        if let Some(url) = &args.remote_ext_base_url {
            cmd.arg("--remote-ext-base-url");
            cmd.arg(url.as_str());
        }
        if args.dev {
            cmd.arg("--dev");
        }
        if let Some(name) = &self.privileged_role_name {
            cmd.arg("--privileged-role-name");
            cmd.arg(name.as_str());
        }
        assert(cmd@.args =~= launch_command(self@, args@, pg_bin_dir@).args);
        cmd
    }

    /// What is announced when the endpoint is about to be launched.
    fn announcements(&self, create_test_user: bool) -> (r: Vec<String>)
        ensures
            r.deep_view() == announcements(self@, create_test_user),
    {
        let mut r: Vec<String> = Vec::new();
        let mut s = "Starting postgres node at '".to_owned();
        s.append(self.connstr("cloud_admin", "postgres").as_str());
        s.append("'");
        r.push(s);
        if create_test_user {
            let mut s = "Also at '".to_owned();
            s.append(self.connstr("test", "neondb").as_str());
            s.append("'");
            r.push(s);
        }
        assert(r.deep_view() =~= announcements(self@, create_test_user));
        r
    }

    /// What is to be done outside the library for a start that has come this far.
    pub fn start_action(&self, args: &EndpointStartArgs, state: &StartState) -> (r: StartAction)
        ensures
            r@ == action_of(self@, args@, state@),
    {
        match state {
            StartState::ProbingStatus => StartAction::ProbeStatus {
                pidfile: self.postmaster_pid(),
                address: self.pg_address,
                timeout_millis: PROBE_TIMEOUT_MILLIS,
            },
            StartState::ReadingConf => StartAction::ReadConf {
                path: self.file(EndpointFile::PostgresqlConf),
            },
            StartState::ClearingPgdata { .. } => StartAction::RemoveDir { path: self.pgdata() },
            StartState::ReadingExtensions { .. } => StartAction::ReadExtensions {
                path: self.file(EndpointFile::RemoteExtensionsSpec),
            },
            StartState::WritingConfig { .. } => StartAction::WriteConfig {
                path: self.file(EndpointFile::ConfigJson),
            },
            StartState::OpeningLog => StartAction::OpenLog {
                path: self.file(EndpointFile::ComputeLog),
            },
            StartState::LocatingPostgres => StartAction::LocatePostgres {
                announcements: self.announcements(args.create_test_user),
            },
            StartState::Launching { .. } => StartAction::Launch,
            StartState::WritingPid { pid } => StartAction::WriteFile {
                path: self.file(EndpointFile::ComputeCtlPid),
                contents: to_decimal(*pid as u64),
            },
            StartState::Polling => StartAction::PollStatus { request: self.get_status() },
            StartState::Sleeping => StartAction::Sleep { millis: ATTEMPT_INTERVAL_MILLIS },
            StartState::Running => StartAction::Finish,
            StartState::Failed { kill_child, .. } => {
                if *kill_child {
                    StartAction::KillChild
                } else {
                    StartAction::Finish
                }
            },
        }
    }

    /// Takes a start one step further, given what came of the work of its state.
    pub fn start(&self, args: &EndpointStartArgs, state: StartState, event: StartEvent) -> (r:
        StartState)
        ensures
            r@ == start_next(self@, args@, state@, event@),
    {
        match state {
            StartState::ProbingStatus => match event {
                StartEvent::StatusProbed { has_pidfile, can_connect } => {
                    if self.status(has_pidfile, can_connect) == EndpointStatus::Running {
                        StartState::Failed {
                            error: EndpointError::AlreadyRunning,
                            kill_child: false,
                        }
                    } else {
                        StartState::ReadingConf
                    }
                },
                _ => StartState::ProbingStatus,
            },
            StartState::ReadingConf => match event {
                StartEvent::ConfRead { read } => match Self::read_postgresql_conf(read) {
                    Ok(conf) => StartState::ClearingPgdata { conf },
                    Err(error) => StartState::Failed { error, kill_child: false },
                },
                _ => StartState::ReadingConf,
            },
            StartState::ClearingPgdata { conf } => match event {
                StartEvent::PgdataCleared => {
                    match self.build_safekeepers_connstrs(&args.safekeepers) {
                        Ok(list) => StartState::ReadingExtensions {
                            conf,
                            safekeeper_connstrings: list,
                        },
                        Err(error) => StartState::Failed { error, kill_child: false },
                    }
                },
                StartEvent::IoFailed { cause } => io_failure(cause, false),
                _ => StartState::ClearingPgdata { conf },
            },
            StartState::ReadingExtensions { conf, safekeeper_connstrings } => match event {
                StartEvent::ExtensionsRead { remote_extensions } => {
                    match args.pageserver_conninfo.pageserver_connstring() {
                        Ok(connstring) => {
                            let spec = self.start_spec(
                                args,
                                conf,
                                safekeeper_connstrings,
                                connstring,
                                remote_extensions,
                            );
                            let config = ComputeConfig {
                                spec: Some(spec),
                                compute_ctl_config: self.compute_ctl_config.clone(),
                            };
                            StartState::WritingConfig { config }
                        },
                        Err(error) => StartState::Failed { error, kill_child: false },
                    }
                },
                _ => StartState::ReadingExtensions { conf, safekeeper_connstrings },
            },
            StartState::WritingConfig { config } => match event {
                StartEvent::ConfigWritten => StartState::OpeningLog,
                StartEvent::IoFailed { cause } => io_failure(cause, false),
                _ => StartState::WritingConfig { config },
            },
            StartState::OpeningLog => match event {
                StartEvent::LogOpened => StartState::LocatingPostgres,
                StartEvent::IoFailed { cause } => io_failure(cause, false),
                _ => StartState::OpeningLog,
            },
            StartState::LocatingPostgres => match event {
                StartEvent::PostgresLocated { pg_bin_dir } => StartState::Launching {
                    command: self.launch_command(args, pg_bin_dir.as_str()),
                },
                StartEvent::IoFailed { cause } => io_failure(cause, false),
                _ => StartState::LocatingPostgres,
            },
            StartState::Launching { command } => match event {
                StartEvent::Launched { pid } => StartState::WritingPid { pid },
                StartEvent::IoFailed { cause } => io_failure(cause, false),
                _ => StartState::Launching { command },
            },
            StartState::WritingPid { pid } => match event {
                StartEvent::PidWritten => StartState::Polling,
                StartEvent::IoFailed { cause } => io_failure(cause, true),
                _ => StartState::WritingPid { pid },
            },
            StartState::Polling => match event {
                StartEvent::StatusPolled { reply, elapsed } => after_status(reply, elapsed, args),
                _ => StartState::Polling,
            },
            StartState::Sleeping => match event {
                StartEvent::Slept => StartState::Polling,
                _ => StartState::Sleeping,
            },
            StartState::Running => StartState::Running,
            StartState::Failed { error, kill_child } => StartState::Failed { error, kill_child },
        }
    }
}

/// Where a start is after some events.
pub open spec fn started(
    ep: EndpointView,
    args: StartArgsView,
    events: Seq<StartEventView>,
) -> StartStateView
    decreases events.len(),
{
    if events.len() == 0 {
        StartStateView::ProbingStatus
    } else {
        start_next(ep, args, started(ep, args, events.drop_last()), events.last())
    }
}

/// Whether each event was awaited when it came: the events are the history of a start.
pub open spec fn is_history(
    ep: EndpointView,
    args: StartArgsView,
    events: Seq<StartEventView>,
) -> bool
    decreases events.len(),
{
    events.len() > 0 ==> is_history(ep, args, events.drop_last()) && awaits(
        started(ep, args, events.drop_last()),
        events.last(),
    )
}

/// How many steps it takes to come to a state, unless the start failed.
pub open spec fn steps_to(state: StartStateView) -> int {
    match state {
        StartStateView::ProbingStatus => 0,
        StartStateView::ReadingConf => 1,
        StartStateView::ClearingPgdata { .. } => 2,
        StartStateView::ReadingExtensions { .. } => 3,
        StartStateView::WritingConfig { .. } => 4,
        StartStateView::OpeningLog => 5,
        StartStateView::LocatingPostgres => 6,
        StartStateView::Launching { .. } => 7,
        StartStateView::WritingPid { .. } => 8,
        StartStateView::Polling => 9,
        StartStateView::Sleeping => 9,
        StartStateView::Running => 9,
        StartStateView::Failed { .. } => 0,
    }
}

/// Whether an event says that the step with this number was done.
pub open spec fn completes_step(event: StartEventView, step: int) -> bool {
    match event {
        StartEventView::StatusProbed { .. } => step == 0,
        StartEventView::ConfRead { .. } => step == 1,
        StartEventView::PgdataCleared => step == 2,
        StartEventView::ExtensionsRead { .. } => step == 3,
        StartEventView::ConfigWritten => step == 4,
        StartEventView::LogOpened => step == 5,
        StartEventView::PostgresLocated { .. } => step == 6,
        StartEventView::Launched { .. } => step == 7,
        StartEventView::PidWritten => step == 8,
        _ => false,
    }
}

/// A start that has not failed did its steps one by one, in order, and skipped none: the status
/// was looked at, the configuration read, the data directory cleared, the configuration file
/// written and the log opened before `compute_ctl` was launched, and its pid was written down
/// before it was asked for anything.
pub proof fn law_start_goes_in_order(
    ep: EndpointView,
    args: StartArgsView,
    events: Seq<StartEventView>,
)
    requires
        is_history(ep, args, events),
        !(started(ep, args, events) is Failed),
    ensures
        events.len() >= steps_to(started(ep, args, events)),
        forall|i: int|
            0 <= i < steps_to(started(ep, args, events)) ==> completes_step(
                #[trigger] events[i],
                i,
            ),
        steps_to(started(ep, args, events)) < 9 ==> events.len() == steps_to(
            started(ep, args, events),
        ),
    decreases events.len(),
{
    if events.len() > 0 {
        let before = events.drop_last();
        law_start_goes_in_order(ep, args, before);
        let steps = steps_to(started(ep, args, before));
        assert forall|i: int| 0 <= i < steps implies completes_step(#[trigger] events[i], i) by {
            assert(before[i] == events[i]);
        }
    }
}

/// Whether `compute_ctl` was launched in the course of some events.
pub open spec fn launched(events: Seq<StartEventView>) -> bool {
    exists|i: int| 0 <= i < events.len() && #[trigger] events[i] is Launched
}

/// What was launched is accounted for: a start holds on to the process while it goes on, kills it
/// if it fails, and lets it live only if it succeeds. A start that launched nothing kills
/// nothing.
pub proof fn law_child_is_accounted_for(
    ep: EndpointView,
    args: StartArgsView,
    events: Seq<StartEventView>,
)
    requires
        is_history(ep, args, events),
    ensures
        match started(ep, args, events) {
            StartStateView::Failed { kill_child, .. } => kill_child == launched(events),
            StartStateView::Running => launched(events),
            state => holds_child(state) == launched(events),
        },
    decreases events.len(),
{
    if events.len() > 0 {
        let before = events.drop_last();
        law_child_is_accounted_for(ep, args, before);
        if launched(before) {
            let i = choose|i: int| 0 <= i < before.len() && #[trigger] before[i] is Launched;
            assert(events[i] is Launched);
        }
        if events.last() is Launched {
            assert(events[events.len() - 1] is Launched);
        }
        if launched(events) && !(events.last() is Launched) {
            let i = choose|i: int| 0 <= i < events.len() && #[trigger] events[i] is Launched;
            assert(before[i] is Launched);
        }
    }
}

/// A start succeeds only on the word of the compute that it runs.
pub proof fn law_success_is_reported(
    ep: EndpointView,
    args: StartArgsView,
    events: Seq<StartEventView>,
)
    requires
        is_history(ep, args, events),
        started(ep, args, events) is Running,
    ensures
        events.len() > 0,
        events.last() matches StartEventView::StatusPolled { reply: Ok(response), .. }
            && response.status == ComputeStatus::Running,
{
}

/// An endpoint that runs is not started again: nothing is read, removed, written or launched.
pub proof fn law_running_endpoint_is_left_alone(
    ep: EndpointView,
    args: StartArgsView,
    events: Seq<StartEventView>,
)
    requires
        is_history(ep, args, events),
        events.len() > 0,
        events[0] == (StartEventView::StatusProbed { has_pidfile: true, can_connect: true }),
    ensures
        events.len() == 1,
        started(ep, args, events) == failed(EndpointErrorView::AlreadyRunning, false),
    decreases events.len(),
{
    let before = events.drop_last();
    if before.len() > 0 {
        law_running_endpoint_is_left_alone(ep, args, before);
    }
}

/// A compute that stays silent or keeps initialising is waited for exactly as long as the time
/// allows.
pub proof fn law_waiting_is_bounded(
    args: StartArgsView,
    reply: Result<StatusResponseView, Seq<char>>,
    elapsed: u128,
)
    requires
        reply matches Ok(response) ==> response.status == ComputeStatus::Init,
    ensures
        after_poll(args, reply, elapsed) is Sleeping <==> elapsed <= args.start_timeout,
        after_poll(args, reply, elapsed) is Failed <==> elapsed > args.start_timeout,
{
}

/// The test user owns the test database wherever both are asked for, whether the endpoint brings
/// a cluster of its own or not, and nothing that the cluster had before is lost.
pub proof fn law_test_user_owns_test_database(
    own: Option<ClusterView>,
    create_test_user: bool,
    conf: Seq<char>,
)
    ensures
        ({
            let cluster = start_cluster(own, create_test_user, conf);
            &&& create_test_user ==> cluster.roles.contains(test_role())
                && cluster.databases.contains(test_database()) && test_database().owner
                == test_role().name
            &&& own matches Some(own) ==> own.roles.is_prefix_of(cluster.roles)
                && own.databases.is_prefix_of(cluster.databases)
            &&& cluster.postgresql_conf == Some(conf)
        }),
{
    let cluster = start_cluster(own, create_test_user, conf);
    if create_test_user {
        assert(cluster.roles.last() == test_role());
        assert(cluster.databases.last() == test_database());
    }
}

/// Reconfiguring an endpoint with what it was started with changes nothing.
pub proof fn law_reconfigure_as_started(
    ep: EndpointView,
    args: StartArgsView,
    conf: Seq<char>,
    safekeeper_list: Seq<Seq<char>>,
    pageserver_connstring: Option<Seq<char>>,
    remote_extensions: Option<Seq<char>>,
)
    requires
        safekeeper_connstrings(ep, args.safekeepers) == Ok::<_, EndpointErrorView>(safekeeper_list),
        has_shards(args.pageserver_conninfo),
    ensures
        ({
            let spec = start_spec(
                ep,
                args,
                conf,
                safekeeper_list,
                pageserver_connstring,
                remote_extensions,
            );
            reconfigured(
                ep,
                spec,
                conf,
                Some(args.pageserver_conninfo),
                Some(args.safekeepers),
                args.safekeepers_generation,
            ) == Ok::<_, EndpointErrorView>(spec)
        }),
{
}

/// The configuration file holds what was read and what the start was asked for: the Postgres
/// settings and the remote extensions as they were found, the safekeepers and the pageservers
/// that were given.
pub proof fn law_configuration_is_what_was_read(
    ep: EndpointView,
    args: StartArgsView,
    events: Seq<StartEventView>,
)
    requires
        is_history(ep, args, events),
        started(ep, args, events) is WritingConfig,
    ensures
        events.len() == 4,
        events[1] is ConfRead,
        events[3] is ExtensionsRead,
        conf_text(events[1]->read) is Ok,
        safekeeper_connstrings(ep, args.safekeepers) is Ok,
        args.pageserver_conninfo.connstring() is Ok,
        started(ep, args, events)->config == (ComputeConfigView {
            spec: Some(
                start_spec(
                    ep,
                    args,
                    conf_text(events[1]->read)->Ok_0,
                    safekeeper_connstrings(ep, args.safekeepers)->Ok_0,
                    args.pageserver_conninfo.connstring()->Ok_0,
                    events[3]->remote_extensions,
                ),
            ),
            compute_ctl_config: ep.compute_ctl_config,
        }),
{
    law_start_goes_in_order(ep, args, events);
    let three = events.drop_last();
    let two = three.drop_last();
    let one = two.drop_last();
    let none = one.drop_last();
    assert(none.len() == 0);
    assert(one.last() == events[0]);
    assert(two.last() == events[1]);
    assert(three.last() == events[2]);
    assert(events.last() == events[3]);
    assert(completes_step(events[1], 1));
    assert(completes_step(events[2], 2));
    assert(completes_step(events[3], 3));
    reveal_with_fuel(is_history, 5);
    reveal_with_fuel(started, 5);
    assert(is_history(ep, args, three) && awaits(started(ep, args, three), events[3]));
    assert(is_history(ep, args, two) && awaits(started(ep, args, two), events[2]));
    assert(is_history(ep, args, one) && awaits(started(ep, args, one), events[1]));
    let read = events[1]->read;
    assert(started(ep, args, one) == StartStateView::ReadingConf);
    assert(started(ep, args, two) == advanced(ep, args, started(ep, args, one), events[1]));
    assert(started(ep, args, two) == (StartStateView::ClearingPgdata {
        conf: conf_text(read)->Ok_0,
    }));
    assert(started(ep, args, three) == advanced(ep, args, started(ep, args, two), events[2]));
    assert(started(ep, args, three) == (StartStateView::ReadingExtensions {
        conf: conf_text(read)->Ok_0,
        safekeeper_connstrings: safekeeper_connstrings(ep, args.safekeepers)->Ok_0,
    }));
    assert(started(ep, args, events) == advanced(ep, args, started(ep, args, three), events[3]));
}

/// `compute_ctl` is pointed to the configuration file that was written for it, and to the data
/// directory that was cleared for it.
pub proof fn law_compute_ctl_finds_its_files(
    ep: EndpointView,
    args: StartArgsView,
    pg_bin_dir: Seq<char>,
    config: ComputeConfigView,
    conf: Seq<char>,
)
    ensures
        action_of(ep, args, StartStateView::WritingConfig { config })
            matches StartActionView::WriteConfig { path } && launch_command(
            ep,
            args,
            pg_bin_dir,
        ).args.contains(path_arg(path)),
        action_of(ep, args, StartStateView::ClearingPgdata { conf })
            matches StartActionView::RemoveDir { path } && launch_command(
            ep,
            args,
            pg_bin_dir,
        ).args.contains(path_arg(path)),
{
    let list = launch_command(ep, args, pg_bin_dir).args;
    assert(list[5] == path_arg(ep.pgdata()));
    assert(list[9] == path_arg(ep.file(EndpointFile::ConfigJson)));
}

/// Whether an action may change what lies at a path.
pub open spec fn touches(action: StartActionView, path: ChildPathView) -> bool {
    match action {
        StartActionView::RemoveDir { path: dir } => dir.holds(path),
        StartActionView::WriteConfig { path: file } => file == path,
        StartActionView::OpenLog { path: file } => file == path,
        StartActionView::WriteFile { path: file, .. } => file == path,
        _ => false,
    }
}

/// A start leaves the endpoint's `endpoint.json`, its `postgresql.conf` and its remote extensions
/// as they are: the first never changes after the endpoint was created, the others are its
/// owner's to change.
pub proof fn law_start_leaves_conf_files_alone(
    ep: EndpointView,
    args: StartArgsView,
    state: StartStateView,
    file: EndpointFile,
)
    requires
        file == EndpointFile::EndpointJson || file == EndpointFile::PostgresqlConf || file
            == EndpointFile::RemoteExtensionsSpec,
    ensures
        !touches(action_of(ep, args, state), ep.file(file)),
{
    let path = ep.file(file);
    if ep.pgdata().holds(path) {
        lemma_file_is_not_pgdata(file);
        assert(ep.pgdata().parts[1] == "pgdata"@);
        assert(path.parts[1] == file.name());
    }
    law_files_are_apart(ep, ep, file, EndpointFile::ConfigJson);
    law_files_are_apart(ep, ep, file, EndpointFile::ComputeLog);
    law_files_are_apart(ep, ep, file, EndpointFile::ComputeCtlPid);
}

} // verus!
