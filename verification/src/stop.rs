//! Stopping an endpoint.
//!
//! Like a start, a stop alternates between work outside the library and decisions. [`StopState`]
//! says how far a stop has come, [`Endpoint::stop_action`] what is to be done outside next, and
//! [`Endpoint::stop`] where the outcome of that leads.
use vstd::prelude::*;
use vstd::string::*;

use crate::command::{as_signed, law_pid_reads_back, parse_pid, pid_of};
use crate::control::{terminate_request, HttpRequest, HttpRequestView};
use crate::endpoint::{Endpoint, EndpointFile, EndpointView};
use crate::error::{EndpointError, EndpointErrorView};
use crate::ids::Lsn;
use crate::path::{ChildPath, ChildPathView};
use crate::start::{StartActionView, StartArgsView, StartStateView};
use crate::status::EndpointTerminateMode;

verus! {

/// How far a stop has come.
#[derive(Debug, PartialEq, Eq)]
pub enum StopState {
    /// Bringing Postgres down.
    Halting,
    /// Reading which process `compute_ctl` is. `lsn` is how far Postgres had come, if it told.
    ReadingPid { lsn: Option<Lsn> },
    /// Waiting for `compute_ctl` to exit: it might have some cleanup to do after Postgres stopped.
    AwaitingExit { lsn: Option<Lsn>, pid: i32 },
    /// Removing the endpoint's directory.
    Removing { lsn: Option<Lsn> },
    /// The endpoint is down.
    Stopped { lsn: Option<Lsn> },
    /// The stop failed.
    Failed { error: EndpointError },
}

/// What a [`StopState`] denotes.
#[verifier::ext_equal]
pub enum StopStateView {
    Halting,
    ReadingPid { lsn: Option<Seq<char>> },
    AwaitingExit { lsn: Option<Seq<char>>, pid: int },
    Removing { lsn: Option<Seq<char>> },
    Stopped { lsn: Option<Seq<char>> },
    Failed { error: EndpointErrorView },
}

impl View for StopState {
    type V = StopStateView;

    open spec fn view(&self) -> StopStateView {
        match self {
            StopState::Halting => StopStateView::Halting,
            StopState::ReadingPid { lsn } => StopStateView::ReadingPid { lsn: lsn.deep_view() },
            StopState::AwaitingExit { lsn, pid } => StopStateView::AwaitingExit {
                lsn: lsn.deep_view(),
                pid: *pid as int,
            },
            StopState::Removing { lsn } => StopStateView::Removing { lsn: lsn.deep_view() },
            StopState::Stopped { lsn } => StopStateView::Stopped { lsn: lsn.deep_view() },
            StopState::Failed { error } => StopStateView::Failed { error: error@ },
        }
    }
}

impl StopState {
    /// A stop that has done nothing yet.
    pub fn new() -> (r: StopState)
        ensures
            r@ == StopStateView::Halting,
    {
        StopState::Halting
    }
}

/// What came of the work of a [`StopState`].
#[derive(Debug, PartialEq, Eq)]
pub enum StopEvent {
    /// `compute_ctl` answered the request to terminate.
    Terminated { lsn: Option<Lsn> },
    /// `pg_ctl` ran.
    PgCtlRan { success: bool, exit_status: String, stdout: String, stderr: String },
    /// The pid file holds this text.
    PidRead { text: String },
    Exited,
    Removed,
    /// The work could not be done.
    IoFailed { cause: String },
}

/// What a [`StopEvent`] denotes.
#[verifier::ext_equal]
pub enum StopEventView {
    Terminated { lsn: Option<Seq<char>> },
    PgCtlRan { success: bool, exit_status: Seq<char>, stdout: Seq<char>, stderr: Seq<char> },
    PidRead { text: Seq<char> },
    Exited,
    Removed,
    IoFailed { cause: Seq<char> },
}

impl View for StopEvent {
    type V = StopEventView;

    open spec fn view(&self) -> StopEventView {
        match self {
            StopEvent::Terminated { lsn } => StopEventView::Terminated { lsn: lsn.deep_view() },
            StopEvent::PgCtlRan { success, exit_status, stdout, stderr } => {
                StopEventView::PgCtlRan {
                    success: *success,
                    exit_status: exit_status@,
                    stdout: stdout@,
                    stderr: stderr@,
                }
            },
            StopEvent::PidRead { text } => StopEventView::PidRead { text: text@ },
            StopEvent::Exited => StopEventView::Exited,
            StopEvent::Removed => StopEventView::Removed,
            StopEvent::IoFailed { cause } => StopEventView::IoFailed { cause: cause@ },
        }
    }
}

/// Whether `compute_ctl` is asked to bring Postgres down. That is slow, but it tells how far
/// Postgres had come. Else `pg_ctl` does it.
pub open spec fn asks_compute_ctl(mode: EndpointTerminateMode) -> bool {
    mode == EndpointTerminateMode::ImmediateTerminate
}

/// Whether `event` is an outcome of the work of `state`.
pub open spec fn awaits(
    mode: EndpointTerminateMode,
    state: StopStateView,
    event: StopEventView,
) -> bool {
    match state {
        StopStateView::Halting => event is IoFailed || if asks_compute_ctl(mode) {
            event is Terminated
        } else {
            event is PgCtlRan
        },
        StopStateView::ReadingPid { .. } => event is PidRead || event is IoFailed,
        StopStateView::AwaitingExit { .. } => event is Exited || event is IoFailed,
        StopStateView::Removing { .. } => event is Removed || event is IoFailed,
        StopStateView::Stopped { .. } => false,
        StopStateView::Failed { .. } => false,
    }
}

/// Where an awaited event leads.
pub open spec fn advanced(
    destroy: bool,
    state: StopStateView,
    event: StopEventView,
) -> StopStateView {
    match event {
        StopEventView::Terminated { lsn } => StopStateView::ReadingPid { lsn },
        StopEventView::PgCtlRan { success, exit_status, stdout, stderr } => if success {
            StopStateView::ReadingPid { lsn: None }
        } else {
            StopStateView::Failed {
                error: EndpointErrorView::PgCtlFailed { exit_status, stdout, stderr },
            }
        },
        StopEventView::PidRead { text } => match pid_of(text) {
            Ok(pid) => StopStateView::AwaitingExit { lsn: state->ReadingPid_lsn, pid },
            Err(error) => StopStateView::Failed { error },
        },
        StopEventView::Exited => if destroy {
            StopStateView::Removing { lsn: state->AwaitingExit_lsn }
        } else {
            StopStateView::Stopped { lsn: state->AwaitingExit_lsn }
        },
        StopEventView::Removed => StopStateView::Stopped { lsn: state->Removing_lsn },
        StopEventView::IoFailed { cause } => StopStateView::Failed {
            error: EndpointErrorView::Io { cause },
        },
    }
}

/// Where an event leads. One that the state does not await changes nothing.
pub open spec fn stop_next(
    mode: EndpointTerminateMode,
    destroy: bool,
    state: StopStateView,
    event: StopEventView,
) -> StopStateView {
    if awaits(mode, state, event) {
        advanced(destroy, state, event)
    } else {
        state
    }
}

/// What is to be done outside the library for a [`StopState`].
#[derive(Debug, PartialEq, Eq)]
pub enum StopAction {
    /// Send a request to `compute_ctl`.
    Terminate { request: HttpRequest },
    /// Run `pg_ctl` with these arguments.
    PgCtl { args: Vec<String> },
    ReadPid { path: ChildPath },
    /// Send the process SIGTERM, if asked for, and wait for its end.
    AwaitExit { pid: i32, send_sigterm: bool },
    /// Announce that the database in `pgdata` is destroyed, and remove the directory `path`.
    RemoveDir { pgdata: ChildPath, path: ChildPath },
    /// There is nothing left to do.
    Finish,
}

/// What a [`StopAction`] denotes.
#[verifier::ext_equal]
pub enum StopActionView {
    Terminate { request: HttpRequestView },
    PgCtl { args: Seq<Seq<char>> },
    ReadPid { path: ChildPathView },
    AwaitExit { pid: int, send_sigterm: bool },
    RemoveDir { pgdata: ChildPathView, path: ChildPathView },
    Finish,
}

impl View for StopAction {
    type V = StopActionView;

    open spec fn view(&self) -> StopActionView {
        match self {
            StopAction::Terminate { request } => StopActionView::Terminate { request: request@ },
            StopAction::PgCtl { args } => StopActionView::PgCtl { args: args.deep_view() },
            StopAction::ReadPid { path } => StopActionView::ReadPid { path: path@ },
            StopAction::AwaitExit { pid, send_sigterm } => StopActionView::AwaitExit {
                pid: *pid as int,
                send_sigterm: *send_sigterm,
            },
            StopAction::RemoveDir { pgdata, path } => StopActionView::RemoveDir {
                pgdata: pgdata@,
                path: path@,
            },
            StopAction::Finish => StopActionView::Finish,
        }
    }
}

/// Whether `compute_ctl` is sent SIGTERM before it is waited for. Its cleanup would hang if most
/// safekeepers were down, so it is cut short unless the endpoint is stopped fast and kept.
pub open spec fn sends_sigterm(mode: EndpointTerminateMode, destroy: bool) -> bool {
    destroy || mode != EndpointTerminateMode::Fast
}

/// What is to be done outside the library for a state.
pub open spec fn action_of(
    ep: EndpointView,
    mode: EndpointTerminateMode,
    destroy: bool,
    compute_audience: Seq<char>,
    state: StopStateView,
) -> StopActionView {
    match state {
        StopStateView::Halting => if asks_compute_ctl(mode) {
            StopActionView::Terminate { request: terminate_request(ep, compute_audience) }
        } else {
            StopActionView::PgCtl { args: seq!["-m"@, mode.words(), "stop"@] }
        },
        StopStateView::ReadingPid { .. } => StopActionView::ReadPid {
            path: ep.file(EndpointFile::ComputeCtlPid),
        },
        StopStateView::AwaitingExit { pid, .. } => StopActionView::AwaitExit {
            pid,
            send_sigterm: sends_sigterm(mode, destroy),
        },
        StopStateView::Removing { .. } => StopActionView::RemoveDir {
            pgdata: ep.pgdata(),
            path: ep.dir(),
        },
        StopStateView::Stopped { .. } => StopActionView::Finish,
        StopStateView::Failed { .. } => StopActionView::Finish,
    }
}

/// A stop that is over because work outside the library failed.
fn io_failure(cause: String) -> (r: StopState)
    ensures
        r@ == (StopStateView::Failed { error: EndpointErrorView::Io { cause: cause@ } }),
{
    StopState::Failed { error: EndpointError::Io { cause } }
}

impl Endpoint {
    /// What is to be done outside the library for a stop that has come this far.
    pub fn stop_action(
        &self,
        mode: EndpointTerminateMode,
        destroy: bool,
        compute_audience: &str,
        state: &StopState,
    ) -> (r: StopAction)
        ensures
            r@ == action_of(self@, mode, destroy, compute_audience@, state@),
    {
        match state {
            StopState::Halting => {
                if mode == EndpointTerminateMode::ImmediateTerminate {
                    StopAction::Terminate { request: self.terminate(compute_audience) }
                } else {
                    let mut args: Vec<String> = Vec::new();
                    args.push("-m".to_owned());
                    args.push(mode.as_str().to_owned());
                    args.push("stop".to_owned());
                    assert(args.deep_view() =~= seq!["-m"@, mode.words(), "stop"@]);
                    StopAction::PgCtl { args }
                }
            },
            StopState::ReadingPid { .. } => StopAction::ReadPid {
                path: self.file(EndpointFile::ComputeCtlPid),
            },
            StopState::AwaitingExit { pid, .. } => StopAction::AwaitExit {
                pid: *pid,
                send_sigterm: destroy || mode != EndpointTerminateMode::Fast,
            },
            StopState::Removing { .. } => StopAction::RemoveDir {
                pgdata: self.pgdata(),
                path: self.endpoint_path(),
            },
            StopState::Stopped { .. } => StopAction::Finish,
            StopState::Failed { .. } => StopAction::Finish,
        }
    }

    /// Takes a stop one step further, given what came of the work of its state.
    pub fn stop(
        &self,
        mode: EndpointTerminateMode,
        destroy: bool,
        state: StopState,
        event: StopEvent,
    ) -> (r: StopState)
        ensures
            r@ == stop_next(mode, destroy, state@, event@),
    {
        match state {
            StopState::Halting => match event {
                StopEvent::Terminated { lsn } => {
                    if mode == EndpointTerminateMode::ImmediateTerminate {
                        StopState::ReadingPid { lsn }
                    } else {
                        StopState::Halting
                    }
                },
                StopEvent::PgCtlRan { success, exit_status, stdout, stderr } => {
                    if mode == EndpointTerminateMode::ImmediateTerminate {
                        StopState::Halting
                    } else if success {
                        StopState::ReadingPid { lsn: None }
                    } else {
                        StopState::Failed {
                            error: EndpointError::PgCtlFailed { exit_status, stdout, stderr },
                        }
                    }
                },
                StopEvent::IoFailed { cause } => io_failure(cause),
                _ => StopState::Halting,
            },
            StopState::ReadingPid { lsn } => match event {
                StopEvent::PidRead { text } => match parse_pid(text.as_str()) {
                    Ok(pid) => StopState::AwaitingExit { lsn, pid },
                    Err(error) => StopState::Failed { error },
                },
                StopEvent::IoFailed { cause } => io_failure(cause),
                _ => StopState::ReadingPid { lsn },
            },
            StopState::AwaitingExit { lsn, pid } => match event {
                StopEvent::Exited => {
                    if destroy {
                        StopState::Removing { lsn }
                    } else {
                        StopState::Stopped { lsn }
                    }
                },
                StopEvent::IoFailed { cause } => io_failure(cause),
                _ => StopState::AwaitingExit { lsn, pid },
            },
            StopState::Removing { lsn } => match event {
                StopEvent::Removed => StopState::Stopped { lsn },
                StopEvent::IoFailed { cause } => io_failure(cause),
                _ => StopState::Removing { lsn },
            },
            StopState::Stopped { lsn } => StopState::Stopped { lsn },
            StopState::Failed { error } => StopState::Failed { error },
        }
    }
}

/// Where a stop is after some events.
pub open spec fn stopped(
    mode: EndpointTerminateMode,
    destroy: bool,
    events: Seq<StopEventView>,
) -> StopStateView
    decreases events.len(),
{
    if events.len() == 0 {
        StopStateView::Halting
    } else {
        stop_next(mode, destroy, stopped(mode, destroy, events.drop_last()), events.last())
    }
}

/// Whether each event was awaited when it came: the events are the history of a stop.
pub open spec fn is_history(
    mode: EndpointTerminateMode,
    destroy: bool,
    events: Seq<StopEventView>,
) -> bool
    decreases events.len(),
{
    events.len() > 0 ==> is_history(mode, destroy, events.drop_last()) && awaits(
        mode,
        stopped(mode, destroy, events.drop_last()),
        events.last(),
    )
}

/// What the history of a stop looks like, by the state that it led to.
pub open spec fn took_its_course(
    destroy: bool,
    state: StopStateView,
    events: Seq<StopEventView>,
) -> bool {
    match state {
        StopStateView::Halting => events.len() == 0,
        StopStateView::ReadingPid { lsn } => events.len() == 1 && lsn == lsn_of(events[0]),
        StopStateView::AwaitingExit { lsn, pid } => events.len() == 2 && lsn == lsn_of(events[0])
            && events[1] is PidRead && pid_of(events[1]->text) == Ok::<_, EndpointErrorView>(pid),
        StopStateView::Removing { lsn } => destroy && events.len() == 3 && lsn == lsn_of(events[0])
            && events[1] is PidRead && events[2] is Exited,
        StopStateView::Stopped { lsn } => lsn == lsn_of(events[0]) && events[1] is PidRead
            && events[2] is Exited && if destroy {
            events.len() == 4 && events[3] is Removed
        } else {
            events.len() == 3
        },
        StopStateView::Failed { .. } => 1 <= events.len() <= if destroy {
            4int
        } else {
            3
        },
    }
}

/// What bringing Postgres down told of how far it had come.
pub open spec fn lsn_of(event: StopEventView) -> Option<Seq<char>> {
    match event {
        StopEventView::Terminated { lsn } => lsn,
        _ => None,
    }
}

/// A stop takes its course: Postgres is brought down, then the process that was written down at
/// the start is waited for, and only then is anything removed, and only if the endpoint is to be
/// destroyed. What was told of how far Postgres had come is what is answered in the end.
pub proof fn law_stop_takes_its_course(
    mode: EndpointTerminateMode,
    destroy: bool,
    events: Seq<StopEventView>,
)
    requires
        is_history(mode, destroy, events),
    ensures
        took_its_course(destroy, stopped(mode, destroy, events), events),
    decreases events.len(),
{
    if events.len() > 0 {
        let before = events.drop_last();
        law_stop_takes_its_course(mode, destroy, before);
        assert(forall|i: int| 0 <= i < before.len() ==> before[i] == events[i]);
    }
}

/// Of an endpoint that is kept, nothing is removed.
pub proof fn law_kept_endpoint_keeps_its_files(
    ep: EndpointView,
    mode: EndpointTerminateMode,
    compute_audience: Seq<char>,
    events: Seq<StopEventView>,
)
    requires
        is_history(mode, false, events),
    ensures
        !(action_of(ep, mode, false, compute_audience, stopped(mode, false, events)) is RemoveDir),
{
    law_stop_takes_its_course(mode, false, events);
}

/// Only a request to `compute_ctl` tells how far Postgres had come.
pub proof fn law_pg_ctl_tells_no_lsn(
    mode: EndpointTerminateMode,
    destroy: bool,
    events: Seq<StopEventView>,
)
    requires
        is_history(mode, destroy, events),
        !asks_compute_ctl(mode),
    ensures
        stopped(mode, destroy, events) matches StopStateView::Stopped { lsn } ==> lsn is None,
{
    law_stop_takes_its_course(mode, destroy, events);
    if stopped(mode, destroy, events) is Stopped {
        lemma_first_event(mode, destroy, events);
    }
}

/// The first event of a stop is what came of bringing Postgres down.
proof fn lemma_first_event(
    mode: EndpointTerminateMode,
    destroy: bool,
    events: Seq<StopEventView>,
)
    requires
        is_history(mode, destroy, events),
        events.len() > 0,
    ensures
        awaits(mode, StopStateView::Halting, events[0]),
    decreases events.len(),
{
    if events.len() > 1 {
        lemma_first_event(mode, destroy, events.drop_last());
        assert(events.drop_last()[0] == events[0]);
    }
}

/// A stop waits for the process that the start launched: it reads the file that the start wrote,
/// and what the start wrote there leads it to that process.
pub proof fn law_stop_waits_for_what_was_started(
    ep: EndpointView,
    args: StartArgsView,
    mode: EndpointTerminateMode,
    destroy: bool,
    compute_audience: Seq<char>,
    lsn: Option<Seq<char>>,
    pid: u32,
)
    ensures
        crate::start::action_of(ep, args, StartStateView::WritingPid { pid })
            matches StartActionView::WriteFile { path, contents } && {
            &&& action_of(ep, mode, destroy, compute_audience, StopStateView::ReadingPid { lsn })
                == (StopActionView::ReadPid { path })
            &&& stop_next(
                mode,
                destroy,
                StopStateView::ReadingPid { lsn },
                StopEventView::PidRead { text: contents },
            ) == (StopStateView::AwaitingExit { lsn, pid: as_signed(pid) })
        },
{
    law_pid_reads_back(pid);
}

} // verus!
