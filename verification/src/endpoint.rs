//! Compute endpoints.
//!
//! The data of an endpoint lies in a directory of its own, `<endpoints>/<endpoint id>`:
//!
//! ```text
//!     compute.log               - log output of `compute_ctl` and `postgres`
//!     endpoint.json             - the endpoint's `EndpointConf`
//!     postgresql.conf           - postgresql settings
//!     config.json               - passed to `compute_ctl`
//!     compute_ctl.pid           - process id of `compute_ctl`
//!     pgdata/                   - written by `compute_ctl` and `postgres`
//! ```
use vstd::prelude::*;
use vstd::string::*;

use crate::address::{dotted, host_port, localhost, unspecified, write_host_port};
use crate::address::{Ipv4Address, SocketAddress};
use crate::compute::{
    Cluster, ClusterView, ComputeCtlConfig, ComputeCtlConfigView, ComputeFeature,
};
use crate::error::{EndpointError, EndpointErrorView};
use crate::ids::{
    ComputeMode, ComputeModeView, NodeId, PgMajorVersion, TenantId, TimelineId,
};
use crate::local_env::{find_safekeeper, LocalEnv, LocalEnvView, SafekeeperConf};
use crate::path::{root_path, ChildPath, ChildPathView};
use crate::postgresql_conf::{setting, ConfEntryView, PostgresConf};
use crate::status::EndpointStatus;
use crate::text::{decimal, join, joined, to_decimal};

verus! {

/// Contents of an `endpoint.json` file.
#[derive(Debug, PartialEq, Eq)]
pub struct EndpointConf {
    pub endpoint_id: String,
    pub tenant_id: TenantId,
    pub timeline_id: TimelineId,
    pub mode: ComputeMode,
    pub pg_port: u16,
    pub external_http_port: u16,
    pub internal_http_port: u16,
    pub pg_version: PgMajorVersion,
    pub grpc: bool,
    pub skip_pg_catalog_updates: bool,
    pub reconfigure_concurrency: usize,
    pub drop_subscriptions_before_start: bool,
    pub features: Vec<ComputeFeature>,
    pub cluster: Option<Cluster>,
    pub compute_ctl_config: ComputeCtlConfig,
    pub privileged_role_name: Option<String>,
}

/// What an [`EndpointConf`] denotes.
#[verifier::ext_equal]
pub struct EndpointConfView {
    pub endpoint_id: Seq<char>,
    pub tenant_id: Seq<char>,
    pub timeline_id: Seq<char>,
    pub mode: ComputeModeView,
    pub pg_port: u16,
    pub external_http_port: u16,
    pub internal_http_port: u16,
    pub pg_version: PgMajorVersion,
    pub grpc: bool,
    pub skip_pg_catalog_updates: bool,
    pub reconfigure_concurrency: usize,
    pub drop_subscriptions_before_start: bool,
    pub features: Seq<Seq<char>>,
    pub cluster: Option<ClusterView>,
    pub compute_ctl_config: ComputeCtlConfigView,
    pub privileged_role_name: Option<Seq<char>>,
}

impl View for EndpointConf {
    type V = EndpointConfView;

    open spec fn view(&self) -> EndpointConfView {
        EndpointConfView {
            endpoint_id: self.endpoint_id@,
            tenant_id: self.tenant_id@,
            timeline_id: self.timeline_id@,
            mode: self.mode@,
            pg_port: self.pg_port,
            external_http_port: self.external_http_port,
            internal_http_port: self.internal_http_port,
            pg_version: self.pg_version,
            grpc: self.grpc,
            skip_pg_catalog_updates: self.skip_pg_catalog_updates,
            reconfigure_concurrency: self.reconfigure_concurrency,
            drop_subscriptions_before_start: self.drop_subscriptions_before_start,
            features: self.features.deep_view(),
            cluster: self.cluster.deep_view(),
            compute_ctl_config: self.compute_ctl_config@,
            privileged_role_name: self.privileged_role_name.deep_view(),
        }
    }
}

/// A compute endpoint.
#[derive(Debug, PartialEq, Eq)]
pub struct Endpoint {
    /// Used as the directory name.
    pub endpoint_id: String,
    pub tenant_id: TenantId,
    pub timeline_id: TimelineId,
    pub mode: ComputeMode,
    /// If true, the endpoint should use gRPC to communicate with pageservers.
    pub grpc: bool,
    /// Where Postgres and the HTTP APIs of `compute_ctl` listen.
    pub pg_address: SocketAddress,
    pub external_http_address: SocketAddress,
    pub internal_http_address: SocketAddress,
    pub pg_version: PgMajorVersion,
    /// Not part of the endpoint as such, but the environment that it runs in.
    pub env: LocalEnv,
    pub skip_pg_catalog_updates: bool,
    pub drop_subscriptions_before_start: bool,
    pub reconfigure_concurrency: usize,
    /// Feature flags.
    pub features: Vec<ComputeFeature>,
    /// Cluster settings.
    pub cluster: Option<Cluster>,
    /// What the endpoint's `compute_ctl` is configured with.
    pub compute_ctl_config: ComputeCtlConfig,
    /// The name of the privileged role for the endpoint.
    pub privileged_role_name: Option<String>,
}

/// What an [`Endpoint`] denotes.
#[verifier::ext_equal]
pub struct EndpointView {
    pub endpoint_id: Seq<char>,
    pub tenant_id: Seq<char>,
    pub timeline_id: Seq<char>,
    pub mode: ComputeModeView,
    pub grpc: bool,
    pub pg_address: SocketAddress,
    pub external_http_address: SocketAddress,
    pub internal_http_address: SocketAddress,
    pub pg_version: PgMajorVersion,
    pub env: LocalEnvView,
    pub skip_pg_catalog_updates: bool,
    pub drop_subscriptions_before_start: bool,
    pub reconfigure_concurrency: usize,
    pub features: Seq<Seq<char>>,
    pub cluster: Option<ClusterView>,
    pub compute_ctl_config: ComputeCtlConfigView,
    pub privileged_role_name: Option<Seq<char>>,
}

impl View for Endpoint {
    type V = EndpointView;

    open spec fn view(&self) -> EndpointView {
        EndpointView {
            endpoint_id: self.endpoint_id@,
            tenant_id: self.tenant_id@,
            timeline_id: self.timeline_id@,
            mode: self.mode@,
            grpc: self.grpc,
            pg_address: self.pg_address,
            external_http_address: self.external_http_address,
            internal_http_address: self.internal_http_address,
            pg_version: self.pg_version,
            env: self.env@,
            skip_pg_catalog_updates: self.skip_pg_catalog_updates,
            drop_subscriptions_before_start: self.drop_subscriptions_before_start,
            reconfigure_concurrency: self.reconfigure_concurrency,
            features: self.features.deep_view(),
            cluster: self.cluster.deep_view(),
            compute_ctl_config: self.compute_ctl_config@,
            privileged_role_name: self.privileged_role_name.deep_view(),
        }
    }
}

impl DeepView for Endpoint {
    type V = EndpointView;

    open spec fn deep_view(&self) -> EndpointView {
        self@
    }
}

/// The endpoint that a configuration in the directory `endpoint_id` describes. Postgres and the
/// internal API listen on the loopback interface, the external API on every interface.
pub open spec fn endpoint_of(
    endpoint_id: Seq<char>,
    conf: EndpointConfView,
    env: LocalEnvView,
) -> EndpointView {
    EndpointView {
        endpoint_id,
        tenant_id: conf.tenant_id,
        timeline_id: conf.timeline_id,
        mode: conf.mode,
        grpc: conf.grpc,
        pg_address: SocketAddress { ip: localhost(), port: conf.pg_port },
        external_http_address: SocketAddress { ip: unspecified(), port: conf.external_http_port },
        internal_http_address: SocketAddress { ip: localhost(), port: conf.internal_http_port },
        pg_version: conf.pg_version,
        env,
        skip_pg_catalog_updates: conf.skip_pg_catalog_updates,
        drop_subscriptions_before_start: conf.drop_subscriptions_before_start,
        reconfigure_concurrency: conf.reconfigure_concurrency,
        features: conf.features,
        cluster: conf.cluster,
        compute_ctl_config: conf.compute_ctl_config,
        privileged_role_name: conf.privileged_role_name,
    }
}

/// The settings that every endpoint has.
pub open spec fn common_settings(pg_address: SocketAddress) -> Seq<ConfEntryView> {
    seq![
        setting("max_wal_senders"@, "10"@),
        setting("wal_log_hints"@, "off"@),
        setting("max_replication_slots"@, "10"@),
        setting("hot_standby"@, "on"@),
        setting("shared_buffers"@, "1MB"@),
        setting("effective_io_concurrency"@, "2"@),
        setting("fsync"@, "off"@),
        setting("max_connections"@, "100"@),
        setting("wal_level"@, "logical"@),
        setting("wal_sender_timeout"@, "5s"@),
        setting("listen_addresses"@, dotted(pg_address.ip)),
        setting("port"@, decimal(pg_address.port as nat)),
        setting("wal_keep_size"@, "0"@),
        setting("restart_after_crash"@, "off"@),
        setting("shared_preload_libraries"@, "neon"@),
    ]
}

/// The safekeepers as a primary connects to them.
pub open spec fn safekeeper_list(safekeepers: Seq<SafekeeperConf>) -> Seq<char> {
    joined(
        safekeepers.map_values(|sk: SafekeeperConf| host_port("localhost"@, sk.compute_port)),
        ","@,
    )
}

/// The ports of the safekeepers.
pub open spec fn safekeeper_ports(safekeepers: Seq<SafekeeperConf>) -> Seq<char> {
    joined(safekeepers.map_values(|sk: SafekeeperConf| decimal(sk.compute_port as nat)), ","@)
}

/// The hosts of the safekeepers: as many times the local host as there are safekeepers.
pub open spec fn safekeeper_hosts(safekeepers: Seq<SafekeeperConf>) -> Seq<char> {
    joined(safekeepers.map_values(|sk: SafekeeperConf| "localhost"@), ","@)
}

/// How a replica connects to the safekeepers, whichever of them is available.
pub open spec fn primary_conninfo(ep: EndpointView) -> Seq<char> {
    "host="@ + safekeeper_hosts(ep.env.safekeepers) + " port="@ + safekeeper_ports(
        ep.env.safekeepers,
    ) + " options='-c timeline_id="@ + ep.timeline_id + " tenant_id="@ + ep.tenant_id
        + "' application_name=replica replication=true"@
}

/// The replication slot of a replica.
pub open spec fn primary_slot_name(ep: EndpointView) -> Seq<char> {
    "repl_"@ + ep.timeline_id + "_"@
}

/// The settings that depend on how the endpoint runs.
pub open spec fn replication_settings(ep: EndpointView) -> Seq<ConfEntryView> {
    match ep.mode {
        ComputeModeView::Primary => seq![
            setting("max_replication_write_lag"@, "15MB"@),
            setting("max_replication_flush_lag"@, "10GB"@),
        ] + if ep.env.safekeepers.len() > 0 {
            seq![
                setting("synchronous_standby_names"@, "walproposer"@),
                setting("neon.safekeepers"@, safekeeper_list(ep.env.safekeepers)),
            ]
        } else {
            seq![
                setting("synchronous_commit"@, "remote_write"@),
                setting("synchronous_standby_names"@, "pageserver"@),
            ]
        },
        ComputeModeView::Static(lsn) => seq![setting("recovery_target_lsn"@, lsn)],
        ComputeModeView::Replica => seq![
            setting("primary_conninfo"@, primary_conninfo(ep)),
            setting("primary_slot_name"@, primary_slot_name(ep)),
            setting("hot_standby"@, "on"@),
        ] + if ep.pg_version.0 >= 15 {
            seq![setting("recovery_prefetch"@, "off"@)]
        } else {
            seq![]
        },
    }
}

/// The Postgres configuration of an endpoint.
pub open spec fn pg_conf(ep: EndpointView) -> Seq<ConfEntryView> {
    common_settings(ep.pg_address).push(ConfEntryView::Line(""@)) + replication_settings(ep)
}

/// The connection strings of the safekeepers with the given ids. Only a primary has any. An id
/// that the environment does not know is an error, and the first such id is the one reported.
pub open spec fn safekeeper_connstrings(ep: EndpointView, ids: Seq<NodeId>) -> Result<
    Seq<Seq<char>>,
    EndpointErrorView,
>
    decreases ids.len(),
{
    if !(ep.mode is Primary) || ids.len() == 0 {
        Ok(Seq::empty())
    } else {
        match safekeeper_connstrings(ep, ids.drop_last()) {
            Ok(before) => match find_safekeeper(ep.env.safekeepers, ids.last()) {
                Some(sk) => Ok(before.push(host_port("127.0.0.1"@, sk.compute_port))),
                None => Err(EndpointErrorView::SafekeeperMissing { id: ids.last() }),
            },
            Err(error) => Err(error),
        }
    }
}

/// An error among the first ids is the error of the whole list.
proof fn lemma_safekeeper_error_stays(ep: EndpointView, ids: Seq<NodeId>, n: int)
    requires
        0 <= n <= ids.len(),
        safekeeper_connstrings(ep, ids.take(n)) is Err,
    ensures
        safekeeper_connstrings(ep, ids) == safekeeper_connstrings(ep, ids.take(n)),
    decreases ids.len(),
{
    if n < ids.len() {
        assert(ids.drop_last().take(n) =~= ids.take(n));
        lemma_safekeeper_error_stays(ep, ids.drop_last(), n);
    } else {
        assert(ids.take(n) =~= ids);
    }
}

/// Whether the `i`-th of some ids is the first that no safekeeper has.
pub open spec fn is_first_unknown(
    safekeepers: Seq<SafekeeperConf>,
    ids: Seq<NodeId>,
    i: int,
) -> bool {
    &&& 0 <= i < ids.len()
    &&& find_safekeeper(safekeepers, ids[i]) is None
    &&& forall|j: int| 0 <= j < i ==> find_safekeeper(safekeepers, #[trigger] ids[j]) is Some
}

/// A primary connects to each of the given safekeepers, in the given order, unless one of them is
/// unknown: the first such is the one reported. Any other endpoint connects to none.
pub proof fn law_safekeepers_keep_their_order(ep: EndpointView, ids: Seq<NodeId>)
    ensures
        match safekeeper_connstrings(ep, ids) {
            Ok(list) => if ep.mode is Primary {
                list.len() == ids.len() && forall|i: int|
                    0 <= i < ids.len() ==> (find_safekeeper(
                        ep.env.safekeepers,
                        #[trigger] ids[i],
                    ) matches Some(sk) && list[i] == host_port("127.0.0.1"@, sk.compute_port))
            } else {
                list.len() == 0
            },
            Err(error) => ep.mode is Primary && exists|i: int| #[trigger]
                is_first_unknown(ep.env.safekeepers, ids, i) && error == (
                EndpointErrorView::SafekeeperMissing { id: ids[i] }),
        },
    decreases ids.len(),
{
    if ep.mode is Primary && ids.len() > 0 {
        let before = ids.drop_last();
        law_safekeepers_keep_their_order(ep, before);
        match safekeeper_connstrings(ep, before) {
            Ok(_) => {
                let last = ids.len() - 1;
                assert(ids[last] == ids.last());
                assert forall|i: int| 0 <= i < last implies (find_safekeeper(
                    ep.env.safekeepers,
                    #[trigger] ids[i],
                ) matches Some(sk) && safekeeper_connstrings(ep, before)->Ok_0[i] == host_port(
                    "127.0.0.1"@,
                    sk.compute_port,
                )) by {
                    assert(before[i] == ids[i]);
                }
                if safekeeper_connstrings(ep, ids) is Err {
                    assert(is_first_unknown(ep.env.safekeepers, ids, last));
                }
            },
            Err(error) => {
                let i = choose|i: int| #[trigger]
                    is_first_unknown(ep.env.safekeepers, before, i) && error == (
                    EndpointErrorView::SafekeeperMissing { id: before[i] });
                assert(ids[i] == before[i]);
                assert forall|j: int| 0 <= j < i implies find_safekeeper(
                    ep.env.safekeepers,
                    #[trigger] ids[j],
                ) is Some by {
                    assert(before[j] == ids[j]);
                }
                assert(is_first_unknown(ep.env.safekeepers, ids, i));
            },
        }
    }
}

/// An endpoint's Postgres is told to listen where its connection strings point.
pub proof fn law_listens_where_connections_go(ep: EndpointView, user: Seq<char>, db_name: Seq<char>)
    ensures
        pg_conf(ep).contains(setting("listen_addresses"@, dotted(ep.pg_address.ip))),
        pg_conf(ep).contains(setting("port"@, decimal(ep.pg_address.port as nat))),
        ep.connstr(user, db_name) == "postgresql://"@ + user + "@"@ + host_port(
            dotted(ep.pg_address.ip),
            ep.pg_address.port,
        ) + "/"@ + db_name,
{
    assert(pg_conf(ep)[10] == setting("listen_addresses"@, dotted(ep.pg_address.ip)));
    assert(pg_conf(ep)[11] == setting("port"@, decimal(ep.pg_address.port as nat)));
}

/// A file in an endpoint's directory.
#[derive(Clone, Copy, Debug, PartialEq, Eq, Structural)]
pub enum EndpointFile {
    EndpointJson,
    PostgresqlConf,
    ConfigJson,
    ComputeLog,
    ComputeCtlPid,
    RemoteExtensionsSpec,
}

impl EndpointFile {
    /// The file's name.
    pub open spec fn name(self) -> Seq<char> {
        match self {
            EndpointFile::EndpointJson => "endpoint.json"@,
            EndpointFile::PostgresqlConf => "postgresql.conf"@,
            EndpointFile::ConfigJson => "config.json"@,
            EndpointFile::ComputeLog => "compute.log"@,
            EndpointFile::ComputeCtlPid => "compute_ctl.pid"@,
            EndpointFile::RemoteExtensionsSpec => "remote_extensions_spec.json"@,
        }
    }

    /// The file's name.
    pub fn as_str(&self) -> (s: &'static str)
        ensures
            s@ == self.name(),
    {
        match self {
            EndpointFile::EndpointJson => "endpoint.json",
            EndpointFile::PostgresqlConf => "postgresql.conf",
            EndpointFile::ConfigJson => "config.json",
            EndpointFile::ComputeLog => "compute.log",
            EndpointFile::ComputeCtlPid => "compute_ctl.pid",
            EndpointFile::RemoteExtensionsSpec => "remote_extensions_spec.json",
        }
    }
}

/// Two files of an endpoint's directory that have the same name are the same file.
proof fn lemma_file_names_differ(a: EndpointFile, b: EndpointFile)
    requires
        a.name() == b.name(),
    ensures
        a == b,
{
    reveal_strlit("endpoint.json");
    reveal_strlit("postgresql.conf");
    reveal_strlit("config.json");
    reveal_strlit("compute.log");
    reveal_strlit("compute_ctl.pid");
    reveal_strlit("remote_extensions_spec.json");
    assert("endpoint.json"@.len() == 13);
    assert("postgresql.conf"@.len() == 15 && "postgresql.conf"@[0] == 'p');
    assert("config.json"@.len() == 11 && "config.json"@[10] == 'n');
    assert("compute.log"@.len() == 11 && "compute.log"@[10] == 'g');
    assert("compute_ctl.pid"@.len() == 15 && "compute_ctl.pid"@[0] == 'c');
    assert("remote_extensions_spec.json"@.len() == 27);
}

/// No file of an endpoint's directory is named like the directory of its database.
pub(crate) proof fn lemma_file_is_not_pgdata(file: EndpointFile)
    ensures
        file.name() != "pgdata"@,
{
    reveal_strlit("endpoint.json");
    reveal_strlit("postgresql.conf");
    reveal_strlit("config.json");
    reveal_strlit("compute.log");
    reveal_strlit("compute_ctl.pid");
    reveal_strlit("remote_extensions_spec.json");
    reveal_strlit("pgdata");
    assert("pgdata"@.len() == 6);
    assert(file.name().len() > 6);
}

/// The files of two endpoints of an environment, and two files of one endpoint, have paths that
/// differ in some component.
pub proof fn law_files_are_apart(
    a: EndpointView,
    b: EndpointView,
    file_a: EndpointFile,
    file_b: EndpointFile,
)
    requires
        a.env == b.env,
        a.endpoint_id != b.endpoint_id || file_a != file_b,
    ensures
        a.file(file_a) != b.file(file_b),
{
    if a.file(file_a) == b.file(file_b) {
        assert(a.file(file_a).parts[0] == a.endpoint_id);
        assert(b.file(file_b).parts[0] == b.endpoint_id);
        assert(a.file(file_a).parts[1] == file_a.name());
        assert(b.file(file_b).parts[1] == file_b.name());
        lemma_file_names_differ(file_a, file_b);
    }
}

impl EndpointView {
    /// The endpoint's directory.
    pub open spec fn dir(self) -> ChildPathView {
        root_path(self.env.endpoints_path).join(self.endpoint_id)
    }

    /// The directory of the endpoint's database.
    pub open spec fn pgdata(self) -> ChildPathView {
        self.dir().join("pgdata"@)
    }

    /// Where a file of the endpoint lies.
    pub open spec fn file(self, file: EndpointFile) -> ChildPathView {
        self.dir().join(file.name())
    }

    /// The pid file of the endpoint's Postgres.
    pub open spec fn postmaster_pid(self) -> ChildPathView {
        self.pgdata().join("postmaster.pid"@)
    }

    /// The connection string of a user for a database of this endpoint.
    pub open spec fn connstr(self, user: Seq<char>, db_name: Seq<char>) -> Seq<char> {
        "postgresql://"@ + user + "@"@ + self.pg_address.authority() + "/"@ + db_name
    }
}

impl Endpoint {
    /// The endpoint that a configuration in the directory `endpoint_id` describes.
    pub fn from_conf(endpoint_id: String, conf: EndpointConf, env: &LocalEnv) -> (r: Endpoint)
        ensures
            r@ == endpoint_of(endpoint_id@, conf@, env@),
    {
        Endpoint {
            endpoint_id,
            tenant_id: conf.tenant_id,
            timeline_id: conf.timeline_id,
            mode: conf.mode,
            grpc: conf.grpc,
            pg_address: SocketAddress { ip: Ipv4Address::localhost(), port: conf.pg_port },
            external_http_address: SocketAddress {
                ip: Ipv4Address::unspecified(),
                port: conf.external_http_port,
            },
            internal_http_address: SocketAddress {
                ip: Ipv4Address::localhost(),
                port: conf.internal_http_port,
            },
            pg_version: conf.pg_version,
            env: env.clone(),
            skip_pg_catalog_updates: conf.skip_pg_catalog_updates,
            drop_subscriptions_before_start: conf.drop_subscriptions_before_start,
            reconfigure_concurrency: conf.reconfigure_concurrency,
            features: conf.features,
            cluster: conf.cluster,
            compute_ctl_config: conf.compute_ctl_config,
            privileged_role_name: conf.privileged_role_name,
        }
    }

    /// Generates the Postgres configuration with default settings. A replica needs a safekeeper
    /// to replicate from.
    pub fn setup_pg_conf(&self) -> (conf: PostgresConf)
        requires
            self@.mode is Replica ==> self@.env.safekeepers.len() > 0,
        ensures
            conf@ == pg_conf(self@),
    {
        let mut conf = PostgresConf::new();
        conf.append("max_wal_senders", "10");
        conf.append("wal_log_hints", "off");
        conf.append("max_replication_slots", "10");
        conf.append("hot_standby", "on");
        // Small enough to exercise getPage requests, and still enough for Postgres to operate
        // under load.
        conf.append("shared_buffers", "1MB");
        // Exercise the pageserver's batching, without a lot of concurrent work.
        conf.append("effective_io_concurrency", "2");
        conf.append("fsync", "off");
        conf.append("max_connections", "100");
        conf.append("wal_level", "logical");
        // The maximum time to wait for WAL replication. It also defines how often the receiver
        // sends feedback to the sender.
        conf.append("wal_sender_timeout", "5s");
        conf.append("listen_addresses", self.pg_address.ip.to_text().as_str());
        conf.append("port", to_decimal(self.pg_address.port as u64).as_str());
        conf.append("wal_keep_size", "0");
        // The walproposer panics when the basebackup is invalid: restarting is pointless then.
        conf.append("restart_after_crash", "off");
        // Load the 'neon' extension.
        conf.append("shared_preload_libraries", "neon");
        assert(conf@ =~= common_settings(self@.pg_address));
        conf.append_line("");
        let ghost common = conf@;
        match &self.mode {
            ComputeMode::Primary => {
                // Backpressure: the write lag bounds the latency of page reads, the flush lag
                // bounds recovery time and the disk space that safekeepers need.
                conf.append("max_replication_write_lag", "15MB");
                conf.append("max_replication_flush_lag", "10GB");
                if self.env.safekeepers.len() > 0 {
                    conf.append("synchronous_standby_names", "walproposer");
                    let safekeepers = self.safekeeper_list();
                    conf.append("neon.safekeepers", safekeepers.as_str());
                } else {
                    // Without safekeepers nobody cares about durability, and the WAL goes to the
                    // pageserver directly.
                    conf.append("synchronous_commit", "remote_write");
                    conf.append("synchronous_standby_names", "pageserver");
                }
            },
            ComputeMode::Static(lsn) => {
                conf.append("recovery_target_lsn", lsn.text.as_str());
            },
            ComputeMode::Replica => {
                let connstr = self.primary_conninfo();
                let mut slot_name = "repl_".to_owned();
                slot_name.append(self.timeline_id.text.as_str());
                slot_name.append("_");
                conf.append("primary_conninfo", connstr.as_str());
                conf.append("primary_slot_name", slot_name.as_str());
                conf.append("hot_standby", "on");
                // Prefetching of blocks referenced in WAL makes no sense here: a hot standby
                // ignores pages that are not in the shared buffers.
                if self.pg_version.0 >= 15 {
                    conf.append("recovery_prefetch", "off");
                }
            },
        }
        assert(conf@ =~= common + replication_settings(self@));
        conf
    }

    fn safekeeper_list(&self) -> (s: String)
        ensures
            s@ == safekeeper_list(self@.env.safekeepers),
    {
        let mut parts: Vec<String> = Vec::new();
        let mut i: usize = 0;
        while i < self.env.safekeepers.len()
            invariant
                i <= self.env.safekeepers@.len(),
                parts@.len() == i,
                forall|j: int|
                    0 <= j < i ==> (#[trigger] parts@[j])@ == host_port(
                        "localhost"@,
                        self.env.safekeepers@[j].compute_port,
                    ),
            decreases self.env.safekeepers@.len() - i,
        {
            parts.push(write_host_port("localhost", self.env.safekeepers[i].compute_port));
            i = i + 1;
        }
        assert(parts.deep_view() =~= self@.env.safekeepers.map_values(
            |sk: SafekeeperConf| host_port("localhost"@, sk.compute_port),
        ));
        join(&parts, ",")
    }

    fn primary_conninfo(&self) -> (s: String)
        ensures
            s@ == primary_conninfo(self@),
    {
        let mut ports: Vec<String> = Vec::new();
        let mut hosts: Vec<String> = Vec::new();
        let mut i: usize = 0;
        while i < self.env.safekeepers.len()
            invariant
                i <= self.env.safekeepers@.len(),
                ports@.len() == i,
                hosts@.len() == i,
                forall|j: int|
                    0 <= j < i ==> (#[trigger] ports@[j])@ == decimal(
                        self.env.safekeepers@[j].compute_port as nat,
                    ),
                forall|j: int| 0 <= j < i ==> (#[trigger] hosts@[j])@ == "localhost"@,
            decreases self.env.safekeepers@.len() - i,
        {
            ports.push(to_decimal(self.env.safekeepers[i].compute_port as u64));
            hosts.push("localhost".to_owned());
            i = i + 1;
        }
        assert(ports.deep_view() =~= self@.env.safekeepers.map_values(
            |sk: SafekeeperConf| decimal(sk.compute_port as nat),
        ));
        assert(hosts.deep_view() =~= self@.env.safekeepers.map_values(
            |sk: SafekeeperConf| "localhost"@,
        ));
        let sk_ports = join(&ports, ",");
        let sk_hosts = join(&hosts, ",");
        let mut s = "host=".to_owned();
        s.append(sk_hosts.as_str());
        s.append(" port=");
        s.append(sk_ports.as_str());
        s.append(" options='-c timeline_id=");
        s.append(self.timeline_id.text.as_str());
        s.append(" tenant_id=");
        s.append(self.tenant_id.text.as_str());
        s.append("' application_name=replica replication=true");
        s
    }

    /// Maps the ids of safekeepers to their connection strings.
    pub fn build_safekeepers_connstrs(&self, sk_ids: &Vec<NodeId>) -> (r: Result<
        Vec<String>,
        EndpointError,
    >)
        ensures
            match r {
                Ok(list) => safekeeper_connstrings(self@, sk_ids@) == Ok::<_, EndpointErrorView>(
                    list.deep_view(),
                ),
                Err(error) => safekeeper_connstrings(self@, sk_ids@) == Err::<Seq<Seq<char>>, _>(
                    error@,
                ),
            },
    {
        let mut list: Vec<String> = Vec::new();
        let ghost ids = sk_ids@;
        assert(list.deep_view() =~= Seq::<Seq<char>>::empty());
        if self.mode.is_primary() {
            let mut i: usize = 0;
            while i < sk_ids.len()
                invariant
                    i <= sk_ids@.len(),
                    ids == sk_ids@,
                    self@.mode is Primary,
                    safekeeper_connstrings(self@, ids.take(i as int)) == Ok::<
                        _,
                        EndpointErrorView,
                    >(list.deep_view()),
                decreases sk_ids@.len() - i,
            {
                let id = sk_ids[i];
                proof {
                    assert(ids.take(i + 1).drop_last() =~= ids.take(i as int));
                    assert(ids.take(i + 1).last() == id);
                }
                match self.env.safekeeper(id) {
                    Some(sk) => {
                        let ghost before = list.deep_view();
                        list.push(write_host_port("127.0.0.1", sk.compute_port));
                        assert(list.deep_view() =~= before.push(
                            host_port("127.0.0.1"@, sk.compute_port),
                        ));
                    },
                    None => {
                        proof {
                            lemma_safekeeper_error_stays(self@, ids, i + 1);
                        }
                        return Err(EndpointError::SafekeeperMissing { id });
                    },
                }
                i = i + 1;
            }
            assert(ids.take(ids.len() as int) =~= ids);
        }
        Ok(list)
    }

    /// The endpoint's directory.
    pub fn endpoint_path(&self) -> (r: ChildPath)
        ensures
            r@ == self@.dir(),
    {
        ChildPath::root(self.env.endpoints_path.as_str()).join(self.endpoint_id.as_str())
    }

    /// The directory of the endpoint's database.
    pub fn pgdata(&self) -> (r: ChildPath)
        ensures
            r@ == self@.pgdata(),
    {
        self.endpoint_path().join("pgdata")
    }

    /// Where a file of the endpoint lies.
    pub fn file(&self, file: EndpointFile) -> (r: ChildPath)
        ensures
            r@ == self@.file(file),
    {
        self.endpoint_path().join(file.as_str())
    }

    /// The pid file of the endpoint's Postgres.
    pub fn postmaster_pid(&self) -> (r: ChildPath)
        ensures
            r@ == self@.postmaster_pid(),
    {
        self.pgdata().join("postmaster.pid")
    }

    /// The status of the endpoint, given whether its `postmaster.pid` exists and its Postgres
    /// accepts connections.
    pub fn status(&self, has_pidfile: bool, can_connect: bool) -> (r: EndpointStatus)
        ensures
            r == EndpointStatus::of(has_pidfile, can_connect),
    {
        EndpointStatus::from_probe(has_pidfile, can_connect)
    }

    /// The connection string of a user for a database of this endpoint.
    pub fn connstr(&self, user: &str, db_name: &str) -> (s: String)
        ensures
            s@ == self@.connstr(user@, db_name@),
    {
        let mut s = "postgresql://".to_owned();
        s.append(user);
        s.append("@");
        s.append(self.pg_address.to_text().as_str());
        s.append("/");
        s.append(db_name);
        s
    }
}

} // verus!
