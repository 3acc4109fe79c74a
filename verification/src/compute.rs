//! What a compute is told when it starts, and what it reports about itself.
use vstd::prelude::*;

use crate::conninfo::{ConnectionInfoView, PageserverConnectionInfo};
use crate::ids::{
    ComputeMode, ComputeModeView, NonZeroSeconds, ShardStripeSize, TenantId, TimelineId,
};
use crate::jwks::{JwkSet, JwkView};

verus! {

/// A JSON value that the library carries through without looking inside, by its text.
#[derive(Debug, PartialEq, Eq)]
pub struct OpaqueJson {
    pub text: String,
}

impl View for OpaqueJson {
    type V = Seq<char>;

    open spec fn view(&self) -> Seq<char> {
        self.text@
    }
}

impl DeepView for OpaqueJson {
    type V = Seq<char>;

    open spec fn deep_view(&self) -> Seq<char> {
        self@
    }
}

impl Clone for OpaqueJson {
    fn clone(&self) -> (r: Self)
        ensures
            r.deep_view() == self.deep_view(),
    {
        OpaqueJson { text: self.text.clone() }
    }
}

/// The state that a compute reports.
#[derive(Clone, Copy, Debug, PartialEq, Eq, Structural)]
pub enum ComputeStatus {
    Empty,
    ConfigurationPending,
    Init,
    Running,
    Configuration,
    Failed,
    TerminationPendingFast,
    TerminationPendingImmediate,
    Terminated,
    RefreshConfigurationPending,
    RefreshConfiguration,
}

impl ComputeStatus {
    /// The name of the state.
    pub open spec fn spelled(self) -> Seq<char> {
        match self {
            ComputeStatus::Empty => "Empty"@,
            ComputeStatus::ConfigurationPending => "ConfigurationPending"@,
            ComputeStatus::Init => "Init"@,
            ComputeStatus::Running => "Running"@,
            ComputeStatus::Configuration => "Configuration"@,
            ComputeStatus::Failed => "Failed"@,
            ComputeStatus::TerminationPendingFast => "TerminationPendingFast"@,
            ComputeStatus::TerminationPendingImmediate => "TerminationPendingImmediate"@,
            ComputeStatus::Terminated => "Terminated"@,
            ComputeStatus::RefreshConfigurationPending => "RefreshConfigurationPending"@,
            ComputeStatus::RefreshConfiguration => "RefreshConfiguration"@,
        }
    }

    /// The name of the state.
    pub fn name(&self) -> (s: &'static str)
        ensures
            s@ == self.spelled(),
    {
        match self {
            ComputeStatus::Empty => "Empty",
            ComputeStatus::ConfigurationPending => "ConfigurationPending",
            ComputeStatus::Init => "Init",
            ComputeStatus::Running => "Running",
            ComputeStatus::Configuration => "Configuration",
            ComputeStatus::Failed => "Failed",
            ComputeStatus::TerminationPendingFast => "TerminationPendingFast",
            ComputeStatus::TerminationPendingImmediate => "TerminationPendingImmediate",
            ComputeStatus::Terminated => "Terminated",
            ComputeStatus::RefreshConfigurationPending => "RefreshConfigurationPending",
            ComputeStatus::RefreshConfiguration => "RefreshConfiguration",
        }
    }
}

/// A compute's answer to the question how it is doing.
#[derive(Debug, PartialEq, Eq)]
pub struct ComputeStatusResponse {
    pub status: ComputeStatus,
    pub error: Option<String>,
}

/// What a [`ComputeStatusResponse`] denotes.
#[verifier::ext_equal]
pub struct StatusResponseView {
    pub status: ComputeStatus,
    pub error: Option<Seq<char>>,
}

impl View for ComputeStatusResponse {
    type V = StatusResponseView;

    open spec fn view(&self) -> StatusResponseView {
        StatusResponseView { status: self.status, error: self.error.deep_view() }
    }
}

/// A feature flag, by its name.
#[derive(Debug, PartialEq, Eq)]
pub struct ComputeFeature {
    pub name: String,
}

impl DeepView for ComputeFeature {
    type V = Seq<char>;

    open spec fn deep_view(&self) -> Seq<char> {
        self.name@
    }
}

impl Clone for ComputeFeature {
    fn clone(&self) -> (r: Self)
        ensures
            r.deep_view() == self.deep_view(),
    {
        ComputeFeature { name: self.name.clone() }
    }
}

/// How much a compute writes to its audit log.
#[derive(Debug, PartialEq, Eq)]
pub enum ComputeAudit {
    Disabled,
    Named(String),
}

/// What a [`ComputeAudit`] denotes.
#[verifier::ext_equal]
pub enum ComputeAuditView {
    Disabled,
    Named(Seq<char>),
}

impl View for ComputeAudit {
    type V = ComputeAuditView;

    open spec fn view(&self) -> ComputeAuditView {
        match self {
            ComputeAudit::Disabled => ComputeAuditView::Disabled,
            ComputeAudit::Named(name) => ComputeAuditView::Named(name@),
        }
    }
}

/// A database role.
#[derive(Debug, PartialEq, Eq)]
pub struct Role {
    pub name: String,
    pub encrypted_password: Option<String>,
    pub options: Option<OpaqueJson>,
}

/// What a [`Role`] denotes.
#[verifier::ext_equal]
pub struct RoleView {
    pub name: Seq<char>,
    pub encrypted_password: Option<Seq<char>>,
    pub options: Option<Seq<char>>,
}

impl DeepView for Role {
    type V = RoleView;

    open spec fn deep_view(&self) -> RoleView {
        RoleView {
            name: self.name@,
            encrypted_password: self.encrypted_password.deep_view(),
            options: self.options.deep_view(),
        }
    }
}

impl Clone for Role {
    fn clone(&self) -> (r: Self)
        ensures
            r.deep_view() == self.deep_view(),
    {
        let r = Role {
            name: self.name.clone(),
            encrypted_password: self.encrypted_password.clone(),
            options: self.options.clone(),
        };
        assert(r.deep_view() =~~= self.deep_view());
        r
    }
}

/// A database.
#[derive(Debug, PartialEq, Eq)]
pub struct Database {
    pub name: String,
    pub owner: String,
    pub options: Option<OpaqueJson>,
    pub restrict_conn: bool,
    pub invalid: bool,
}

/// What a [`Database`] denotes.
#[verifier::ext_equal]
pub struct DatabaseView {
    pub name: Seq<char>,
    pub owner: Seq<char>,
    pub options: Option<Seq<char>>,
    pub restrict_conn: bool,
    pub invalid: bool,
}

impl DeepView for Database {
    type V = DatabaseView;

    open spec fn deep_view(&self) -> DatabaseView {
        DatabaseView {
            name: self.name@,
            owner: self.owner@,
            options: self.options.deep_view(),
            restrict_conn: self.restrict_conn,
            invalid: self.invalid,
        }
    }
}

impl Clone for Database {
    fn clone(&self) -> (r: Self)
        ensures
            r.deep_view() == self.deep_view(),
    {
        let r = Database {
            name: self.name.clone(),
            owner: self.owner.clone(),
            options: self.options.clone(),
            restrict_conn: self.restrict_conn,
            invalid: self.invalid,
        };
        assert(r.deep_view() =~~= self.deep_view());
        r
    }
}

/// The Postgres cluster that a compute sets up.
#[derive(Debug, PartialEq, Eq)]
pub struct Cluster {
    pub cluster_id: Option<String>,
    pub name: Option<String>,
    pub state: Option<String>,
    pub roles: Vec<Role>,
    pub databases: Vec<Database>,
    pub settings: Option<OpaqueJson>,
    pub postgresql_conf: Option<String>,
}

/// What a [`Cluster`] denotes.
#[verifier::ext_equal]
pub struct ClusterView {
    pub cluster_id: Option<Seq<char>>,
    pub name: Option<Seq<char>>,
    pub state: Option<Seq<char>>,
    pub roles: Seq<RoleView>,
    pub databases: Seq<DatabaseView>,
    pub settings: Option<Seq<char>>,
    pub postgresql_conf: Option<Seq<char>>,
}

impl View for Cluster {
    type V = ClusterView;

    open spec fn view(&self) -> ClusterView {
        ClusterView {
            cluster_id: self.cluster_id.deep_view(),
            name: self.name.deep_view(),
            state: self.state.deep_view(),
            roles: self.roles.deep_view(),
            databases: self.databases.deep_view(),
            settings: self.settings.deep_view(),
            postgresql_conf: self.postgresql_conf.deep_view(),
        }
    }
}

impl DeepView for Cluster {
    type V = ClusterView;

    open spec fn deep_view(&self) -> ClusterView {
        self@
    }
}

impl Clone for Cluster {
    fn clone(&self) -> (r: Self)
        ensures
            r@ == self@,
    {
        let r = Cluster {
            cluster_id: self.cluster_id.clone(),
            name: self.name.clone(),
            state: self.state.clone(),
            roles: self.roles.clone(),
            databases: self.databases.clone(),
            settings: self.settings.clone(),
            postgresql_conf: self.postgresql_conf.clone(),
        };
        assert(r@ =~~= self@);
        r
    }
}

/// What `compute_ctl` itself is configured with.
#[derive(Debug, PartialEq, Eq)]
pub struct ComputeCtlConfig {
    pub jwks: JwkSet,
    pub tls: Option<OpaqueJson>,
}

/// What a [`ComputeCtlConfig`] denotes.
#[verifier::ext_equal]
pub struct ComputeCtlConfigView {
    pub jwks: Seq<JwkView>,
    pub tls: Option<Seq<char>>,
}

impl View for ComputeCtlConfig {
    type V = ComputeCtlConfigView;

    open spec fn view(&self) -> ComputeCtlConfigView {
        ComputeCtlConfigView { jwks: self.jwks@, tls: self.tls.deep_view() }
    }
}

impl Clone for ComputeCtlConfig {
    fn clone(&self) -> (r: Self)
        ensures
            r@ == self@,
    {
        let r = ComputeCtlConfig { jwks: self.jwks.clone(), tls: self.tls.clone() };
        assert(r@ =~~= self@);
        r
    }
}

/// The specification by which a compute runs Postgres. The version number of the format is not
/// part of it: it is fixed where the specification is written to a file.
#[derive(Debug, PartialEq, Eq)]
pub struct ComputeSpec {
    pub skip_pg_catalog_updates: bool,
    pub operation_uuid: Option<String>,
    pub features: Vec<ComputeFeature>,
    pub swap_size_bytes: Option<u64>,
    pub disk_quota_bytes: Option<u64>,
    pub disable_lfc_resizing: Option<bool>,
    pub cluster: Cluster,
    pub delta_operations: Option<OpaqueJson>,
    pub tenant_id: Option<TenantId>,
    pub timeline_id: Option<TimelineId>,
    pub project_id: Option<String>,
    pub branch_id: Option<String>,
    pub endpoint_id: Option<String>,
    pub mode: ComputeMode,
    pub pageserver_connection_info: Option<PageserverConnectionInfo>,
    pub pageserver_connstring: Option<String>,
    pub safekeepers_generation: Option<u32>,
    pub safekeeper_connstrings: Vec<String>,
    pub storage_auth_token: Option<String>,
    pub remote_extensions: Option<OpaqueJson>,
    pub pgbouncer_settings: Option<OpaqueJson>,
    pub shard_stripe_size: Option<ShardStripeSize>,
    pub local_proxy_config: Option<OpaqueJson>,
    pub reconfigure_concurrency: usize,
    pub drop_subscriptions_before_start: bool,
    pub audit_log_level: ComputeAudit,
    pub logs_export_host: Option<String>,
    pub endpoint_storage_addr: Option<String>,
    pub endpoint_storage_token: Option<String>,
    pub autoprewarm: bool,
    pub offload_lfc_interval_seconds: Option<NonZeroSeconds>,
    pub suspend_timeout_seconds: i64,
    pub databricks_settings: Option<OpaqueJson>,
}

/// What a [`ComputeSpec`] denotes.
#[verifier::ext_equal]
pub struct ComputeSpecView {
    pub skip_pg_catalog_updates: bool,
    pub operation_uuid: Option<Seq<char>>,
    pub features: Seq<Seq<char>>,
    pub swap_size_bytes: Option<u64>,
    pub disk_quota_bytes: Option<u64>,
    pub disable_lfc_resizing: Option<bool>,
    pub cluster: ClusterView,
    pub delta_operations: Option<Seq<char>>,
    pub tenant_id: Option<Seq<char>>,
    pub timeline_id: Option<Seq<char>>,
    pub project_id: Option<Seq<char>>,
    pub branch_id: Option<Seq<char>>,
    pub endpoint_id: Option<Seq<char>>,
    pub mode: ComputeModeView,
    pub pageserver_connection_info: Option<ConnectionInfoView>,
    pub pageserver_connstring: Option<Seq<char>>,
    pub safekeepers_generation: Option<u32>,
    pub safekeeper_connstrings: Seq<Seq<char>>,
    pub storage_auth_token: Option<Seq<char>>,
    pub remote_extensions: Option<Seq<char>>,
    pub pgbouncer_settings: Option<Seq<char>>,
    pub shard_stripe_size: Option<ShardStripeSize>,
    pub local_proxy_config: Option<Seq<char>>,
    pub reconfigure_concurrency: usize,
    pub drop_subscriptions_before_start: bool,
    pub audit_log_level: ComputeAuditView,
    pub logs_export_host: Option<Seq<char>>,
    pub endpoint_storage_addr: Option<Seq<char>>,
    pub endpoint_storage_token: Option<Seq<char>>,
    pub autoprewarm: bool,
    pub offload_lfc_interval_seconds: Option<u64>,
    pub suspend_timeout_seconds: i64,
    pub databricks_settings: Option<Seq<char>>,
}

impl View for ComputeSpec {
    type V = ComputeSpecView;

    open spec fn view(&self) -> ComputeSpecView {
        ComputeSpecView {
            skip_pg_catalog_updates: self.skip_pg_catalog_updates,
            operation_uuid: self.operation_uuid.deep_view(),
            features: self.features.deep_view(),
            swap_size_bytes: self.swap_size_bytes,
            disk_quota_bytes: self.disk_quota_bytes,
            disable_lfc_resizing: self.disable_lfc_resizing,
            cluster: self.cluster@,
            delta_operations: self.delta_operations.deep_view(),
            tenant_id: self.tenant_id.deep_view(),
            timeline_id: self.timeline_id.deep_view(),
            project_id: self.project_id.deep_view(),
            branch_id: self.branch_id.deep_view(),
            endpoint_id: self.endpoint_id.deep_view(),
            mode: self.mode@,
            pageserver_connection_info: self.pageserver_connection_info.deep_view(),
            pageserver_connstring: self.pageserver_connstring.deep_view(),
            safekeepers_generation: self.safekeepers_generation,
            safekeeper_connstrings: self.safekeeper_connstrings.deep_view(),
            storage_auth_token: self.storage_auth_token.deep_view(),
            remote_extensions: self.remote_extensions.deep_view(),
            pgbouncer_settings: self.pgbouncer_settings.deep_view(),
            shard_stripe_size: self.shard_stripe_size,
            local_proxy_config: self.local_proxy_config.deep_view(),
            reconfigure_concurrency: self.reconfigure_concurrency,
            drop_subscriptions_before_start: self.drop_subscriptions_before_start,
            audit_log_level: self.audit_log_level@,
            logs_export_host: self.logs_export_host.deep_view(),
            endpoint_storage_addr: self.endpoint_storage_addr.deep_view(),
            endpoint_storage_token: self.endpoint_storage_token.deep_view(),
            autoprewarm: self.autoprewarm,
            offload_lfc_interval_seconds: self.offload_lfc_interval_seconds.deep_view(),
            suspend_timeout_seconds: self.suspend_timeout_seconds,
            databricks_settings: self.databricks_settings.deep_view(),
        }
    }
}

impl DeepView for ComputeSpec {
    type V = ComputeSpecView;

    open spec fn deep_view(&self) -> ComputeSpecView {
        self@
    }
}

/// The contents of the file that a compute is started with.
#[derive(Debug, PartialEq, Eq)]
pub struct ComputeConfig {
    pub spec: Option<ComputeSpec>,
    pub compute_ctl_config: ComputeCtlConfig,
}

/// What a [`ComputeConfig`] denotes.
#[verifier::ext_equal]
pub struct ComputeConfigView {
    pub spec: Option<ComputeSpecView>,
    pub compute_ctl_config: ComputeCtlConfigView,
}

impl View for ComputeConfig {
    type V = ComputeConfigView;

    open spec fn view(&self) -> ComputeConfigView {
        ComputeConfigView {
            spec: self.spec.deep_view(),
            compute_ctl_config: self.compute_ctl_config@,
        }
    }
}

/// A request that a running compute take over another configuration.
#[derive(Debug, PartialEq, Eq)]
pub struct ConfigurationRequest {
    pub spec: ComputeSpec,
    pub compute_ctl_config: ComputeCtlConfig,
}

/// What a [`ConfigurationRequest`] denotes.
#[verifier::ext_equal]
pub struct ConfigurationRequestView {
    pub spec: ComputeSpecView,
    pub compute_ctl_config: ComputeCtlConfigView,
}

impl View for ConfigurationRequest {
    type V = ConfigurationRequestView;

    open spec fn view(&self) -> ConfigurationRequestView {
        ConfigurationRequestView {
            spec: self.spec@,
            compute_ctl_config: self.compute_ctl_config@,
        }
    }
}

/// What the holder of a token may do.
#[derive(Clone, Copy, Debug, PartialEq, Eq, Structural)]
pub enum ComputeClaimsScope {
    Admin,
}

/// The claims that a token for a compute's API makes.
#[derive(Debug, PartialEq, Eq)]
pub struct ComputeClaims {
    pub compute_id: Option<String>,
    pub scope: Option<ComputeClaimsScope>,
    pub audience: Option<Vec<String>>,
}

/// What [`ComputeClaims`] denote.
#[verifier::ext_equal]
pub struct ComputeClaimsView {
    pub compute_id: Option<Seq<char>>,
    pub scope: Option<ComputeClaimsScope>,
    pub audience: Option<Seq<Seq<char>>>,
}

impl View for ComputeClaims {
    type V = ComputeClaimsView;

    open spec fn view(&self) -> ComputeClaimsView {
        ComputeClaimsView {
            compute_id: self.compute_id.deep_view(),
            scope: self.scope,
            audience: self.audience.deep_view(),
        }
    }
}

impl DeepView for ComputeClaims {
    type V = ComputeClaimsView;

    open spec fn deep_view(&self) -> ComputeClaimsView {
        self@
    }
}

} // verus!
