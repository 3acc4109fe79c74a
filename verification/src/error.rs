//! The ways in which managing an endpoint fails.
use vstd::prelude::*;
use vstd::string::*;

use crate::compute::ComputeStatus;
use crate::ids::{NodeId, ShardIndex, TenantId, TimelineId};
use crate::outside::{debug_quoted, quote};
use crate::text::{decimal, to_decimal};

verus! {

/// Why an operation on an endpoint failed.
#[derive(Debug, PartialEq, Eq)]
pub enum EndpointError {
    /// Starting an endpoint that runs already.
    AlreadyRunning,
    /// Another primary is up on the same timeline.
    DuplicatePrimary { tenant_id: TenantId, timeline_id: TimelineId, endpoint_id: String },
    /// The environment has no safekeeper with this id.
    SafekeeperMissing { id: NodeId },
    /// The connection info has no entry for a shard.
    ShardMissing { shard: ShardIndex },
    /// A shard has no pageserver at all.
    ShardWithoutPageserver,
    /// The connection info names no shard.
    NoPageservers,
    /// The public key is not a DER-encoded `SubjectPublicKeyInfo`.
    InvalidPublicKey { cause: String },
    /// A configuration file is not UTF-8.
    NotUtf8 { cause: String },
    /// A pid file does not hold a number.
    InvalidPid { cause: String },
    /// The compute was still initialising when the time was up.
    InitTimedOut,
    /// The compute could not be reached before the time was up.
    ConnectTimedOut { cause: String },
    /// The compute reported that it failed.
    StartupFailed { reason: Option<String> },
    /// The compute reported a state that does not belong to a start.
    UnexpectedStatus { status: ComputeStatus },
    /// A network address could not be parsed.
    BadAddress { cause: String },
    /// A request was answered with an error.
    Http { message: String },
    /// `pg_ctl` ran and reported a failure.
    PgCtlFailed { exit_status: String, stdout: String, stderr: String },
    /// An entry of the directory of endpoints is not itself a directory.
    NotADirectory { path: String },
    /// A file was gone when it was to be read.
    Vanished { cause: String },
    /// Something outside the library failed.
    Io { cause: String },
}

/// What an [`EndpointError`] denotes.
#[verifier::ext_equal]
pub enum EndpointErrorView {
    AlreadyRunning,
    DuplicatePrimary { tenant_id: Seq<char>, timeline_id: Seq<char>, endpoint_id: Seq<char> },
    SafekeeperMissing { id: NodeId },
    ShardMissing { shard: ShardIndex },
    ShardWithoutPageserver,
    NoPageservers,
    InvalidPublicKey { cause: Seq<char> },
    NotUtf8 { cause: Seq<char> },
    InvalidPid { cause: Seq<char> },
    InitTimedOut,
    ConnectTimedOut { cause: Seq<char> },
    StartupFailed { reason: Option<Seq<char>> },
    UnexpectedStatus { status: ComputeStatus },
    BadAddress { cause: Seq<char> },
    Http { message: Seq<char> },
    PgCtlFailed { exit_status: Seq<char>, stdout: Seq<char>, stderr: Seq<char> },
    NotADirectory { path: Seq<char> },
    Vanished { cause: Seq<char> },
    Io { cause: Seq<char> },
}

impl View for EndpointError {
    type V = EndpointErrorView;

    open spec fn view(&self) -> EndpointErrorView {
        match self {
            EndpointError::AlreadyRunning => EndpointErrorView::AlreadyRunning,
            EndpointError::DuplicatePrimary { tenant_id, timeline_id, endpoint_id } => {
                EndpointErrorView::DuplicatePrimary {
                    tenant_id: tenant_id@,
                    timeline_id: timeline_id@,
                    endpoint_id: endpoint_id@,
                }
            },
            EndpointError::SafekeeperMissing { id } => EndpointErrorView::SafekeeperMissing {
                id: *id,
            },
            EndpointError::ShardMissing { shard } => EndpointErrorView::ShardMissing {
                shard: *shard,
            },
            EndpointError::ShardWithoutPageserver => EndpointErrorView::ShardWithoutPageserver,
            EndpointError::NoPageservers => EndpointErrorView::NoPageservers,
            EndpointError::InvalidPublicKey { cause } => EndpointErrorView::InvalidPublicKey {
                cause: cause@,
            },
            EndpointError::NotUtf8 { cause } => EndpointErrorView::NotUtf8 { cause: cause@ },
            EndpointError::InvalidPid { cause } => EndpointErrorView::InvalidPid { cause: cause@ },
            EndpointError::InitTimedOut => EndpointErrorView::InitTimedOut,
            EndpointError::ConnectTimedOut { cause } => EndpointErrorView::ConnectTimedOut {
                cause: cause@,
            },
            EndpointError::StartupFailed { reason } => EndpointErrorView::StartupFailed {
                reason: reason.deep_view(),
            },
            EndpointError::UnexpectedStatus { status } => EndpointErrorView::UnexpectedStatus {
                status: *status,
            },
            EndpointError::BadAddress { cause } => EndpointErrorView::BadAddress { cause: cause@ },
            EndpointError::Http { message } => EndpointErrorView::Http { message: message@ },
            EndpointError::PgCtlFailed { exit_status, stdout, stderr } => {
                EndpointErrorView::PgCtlFailed {
                    exit_status: exit_status@,
                    stdout: stdout@,
                    stderr: stderr@,
                }
            },
            EndpointError::NotADirectory { path } => EndpointErrorView::NotADirectory {
                path: path@,
            },
            EndpointError::Vanished { cause } => EndpointErrorView::Vanished { cause: cause@ },
            EndpointError::Io { cause } => EndpointErrorView::Io { cause: cause@ },
        }
    }
}

impl EndpointErrorView {
    /// What the error says. `shard_text` and `timeout_text` are how the shard and the time limit
    /// of the error are written.
    pub open spec fn message(self, shard_text: Seq<char>, timeout_text: Seq<char>) -> Seq<char> {
        match self {
            EndpointErrorView::AlreadyRunning => "The endpoint is already running"@,
            EndpointErrorView::DuplicatePrimary { tenant_id, timeline_id, endpoint_id } => {
                duplicate_primary_text(tenant_id, timeline_id, debug_quoted(endpoint_id))
            },
            EndpointErrorView::SafekeeperMissing { id } => "safekeeper "@ + decimal(id.0 as nat)
                + " does not exist"@,
            EndpointErrorView::ShardMissing { shard } => "shard "@ + shard_text
                + " not found in pageserver_connection_info"@,
            EndpointErrorView::ShardWithoutPageserver => "must have at least one pageserver"@,
            EndpointErrorView::NoPageservers => "no pageservers provided"@,
            EndpointErrorView::InvalidPublicKey { cause } => cause,
            EndpointErrorView::NotUtf8 { cause } => cause,
            EndpointErrorView::InvalidPid { cause } => cause,
            EndpointErrorView::InitTimedOut => "compute startup timed out "@ + timeout_text
                + "; still in Init state"@,
            EndpointErrorView::ConnectTimedOut { cause } => "timed out "@ + timeout_text
                + " waiting to connect to compute_ctl HTTP"@,
            EndpointErrorView::StartupFailed { reason } => "compute startup failed: "@
                + match reason {
                Some(reason) => reason,
                None => "<no error from compute_ctl>"@,
            },
            EndpointErrorView::UnexpectedStatus { status } => "unexpected compute status: "@
                + status.spelled(),
            EndpointErrorView::BadAddress { cause } => cause,
            EndpointErrorView::Http { message } => message,
            EndpointErrorView::PgCtlFailed { exit_status, stdout, stderr } => {
                "pg_ctl failed, exit code: "@ + exit_status + ", stdout: "@ + stdout + ", stderr: "@
                    + stderr
            },
            EndpointErrorView::NotADirectory { path } => "Endpoint::from_dir_entry failed: '"@ + path
                + "' is not a directory"@,
            EndpointErrorView::Vanished { cause } => cause,
            EndpointErrorView::Io { cause } => cause,
        }
    }
}

/// What a duplicate primary is refused with. The endpoint that is in the way is named by its
/// quoted id.
pub open spec fn duplicate_primary_text(
    tenant_id: Seq<char>,
    timeline_id: Seq<char>,
    quoted_id: Seq<char>,
) -> Seq<char> {
    "attempting to create a duplicate primary endpoint on tenant "@ + tenant_id + ", timeline "@
        + timeline_id + ": endpoint "@ + quoted_id
        + " exists already. please don't do this, it is not supported."@
}

/// Words the refusal of a duplicate primary.
pub fn duplicate_primary_message(
    tenant_id: &TenantId,
    timeline_id: &TimelineId,
    quoted_id: &str,
) -> (s: String)
    ensures
        s@ == duplicate_primary_text(tenant_id@, timeline_id@, quoted_id@),
{
    let mut s = "attempting to create a duplicate primary endpoint on tenant ".to_owned();
    s.append(tenant_id.text.as_str());
    s.append(", timeline ");
    s.append(timeline_id.text.as_str());
    s.append(": endpoint ");
    s.append(quoted_id);
    s.append(" exists already. please don't do this, it is not supported.");
    s
}

/// `before`, then `middle`, then `after`.
fn sandwich(before: &str, middle: &str, after: &str) -> (s: String)
    ensures
        s@ == before@ + middle@ + after@,
{
    let mut s = before.to_owned();
    s.append(middle);
    s.append(after);
    s
}

/// `before`, then `after`.
fn pair(before: &str, after: &str) -> (s: String)
    ensures
        s@ == before@ + after@,
{
    let mut s = before.to_owned();
    s.append(after);
    s
}

impl EndpointError {
    /// What the error says. The caller supplies how the shard and the time limit of the error
    /// are written.
    pub fn message(&self, shard_text: &str, timeout_text: &str) -> (s: String)
        ensures
            s@ == self@.message(shard_text@, timeout_text@),
    {
        match self {
            EndpointError::AlreadyRunning => "The endpoint is already running".to_owned(),
            EndpointError::DuplicatePrimary { tenant_id, timeline_id, endpoint_id } => {
                let quoted = quote(endpoint_id.as_str());
                duplicate_primary_message(tenant_id, timeline_id, quoted.as_str())
            },
            EndpointError::SafekeeperMissing { id } => sandwich(
                "safekeeper ",
                to_decimal(id.0).as_str(),
                " does not exist",
            ),
            EndpointError::ShardMissing { shard } => sandwich(
                "shard ",
                shard_text,
                " not found in pageserver_connection_info",
            ),
            EndpointError::ShardWithoutPageserver => "must have at least one pageserver".to_owned(),
            EndpointError::NoPageservers => "no pageservers provided".to_owned(),
            EndpointError::InvalidPublicKey { cause } => cause.clone(),
            EndpointError::NotUtf8 { cause } => cause.clone(),
            EndpointError::InvalidPid { cause } => cause.clone(),
            EndpointError::InitTimedOut => sandwich(
                "compute startup timed out ",
                timeout_text,
                "; still in Init state",
            ),
            EndpointError::ConnectTimedOut { cause } => sandwich(
                "timed out ",
                timeout_text,
                " waiting to connect to compute_ctl HTTP",
            ),
            EndpointError::StartupFailed { reason } => {
                match reason {
                    Some(reason) => pair("compute startup failed: ", reason.as_str()),
                    None => pair("compute startup failed: ", "<no error from compute_ctl>"),
                }
            },
            EndpointError::UnexpectedStatus { status } => pair(
                "unexpected compute status: ",
                status.name(),
            ),
            EndpointError::BadAddress { cause } => cause.clone(),
            EndpointError::Http { message } => message.clone(),
            EndpointError::PgCtlFailed { exit_status, stdout, stderr } => {
                let mut s = sandwich("pg_ctl failed, exit code: ", exit_status, ", stdout: ");
                s.append(stdout.as_str());
                s.append(", stderr: ");
                s.append(stderr.as_str());
                s
            },
            EndpointError::NotADirectory { path } => sandwich(
                "Endpoint::from_dir_entry failed: '",
                path.as_str(),
                "' is not a directory",
            ),
            EndpointError::Vanished { cause } => cause.clone(),
            EndpointError::Io { cause } => cause.clone(),
        }
    }
}

} // verus!
