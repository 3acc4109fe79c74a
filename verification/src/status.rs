//! What an endpoint is doing, and how it is told to stop.
use vstd::prelude::*;

verus! {

/// State of an endpoint, as seen from outside.
#[derive(Clone, Copy, Debug, PartialEq, Eq, Structural)]
pub enum EndpointStatus {
    Running,
    Stopped,
    Crashed,
    RunningNoPidfile,
}

impl EndpointStatus {
    /// The status that the presence of the pid file and of a listening server amount to.
    pub open spec fn of(has_pidfile: bool, can_connect: bool) -> EndpointStatus {
        if has_pidfile && can_connect {
            EndpointStatus::Running
        } else if has_pidfile {
            EndpointStatus::Crashed
        } else if can_connect {
            EndpointStatus::RunningNoPidfile
        } else {
            EndpointStatus::Stopped
        }
    }

    /// The status in words.
    pub open spec fn words(self) -> Seq<char> {
        match self {
            EndpointStatus::Running => "running"@,
            EndpointStatus::Stopped => "stopped"@,
            EndpointStatus::Crashed => "crashed"@,
            EndpointStatus::RunningNoPidfile => "running, no pidfile"@,
        }
    }

    /// Works out the status from whether the pid file exists and the server accepts connections.
    pub fn from_probe(has_pidfile: bool, can_connect: bool) -> (r: EndpointStatus)
        ensures
            r == EndpointStatus::of(has_pidfile, can_connect),
    {
        match (has_pidfile, can_connect) {
            (true, true) => EndpointStatus::Running,
            (false, false) => EndpointStatus::Stopped,
            (true, false) => EndpointStatus::Crashed,
            (false, true) => EndpointStatus::RunningNoPidfile,
        }
    }

    /// The status in words.
    pub fn as_str(&self) -> (s: &'static str)
        ensures
            s@ == self.words(),
    {
        match self {
            EndpointStatus::Running => "running",
            EndpointStatus::Stopped => "stopped",
            EndpointStatus::Crashed => "crashed",
            EndpointStatus::RunningNoPidfile => "running, no pidfile",
        }
    }
}

/// How to bring an endpoint down.
#[derive(Clone, Copy, Debug, PartialEq, Eq, Structural)]
pub enum EndpointTerminateMode {
    /// Use pg_ctl stop -m fast
    Fast,
    /// Use pg_ctl stop -m immediate
    Immediate,
    /// Use /terminate?mode=immediate
    ImmediateTerminate,
}

impl Default for EndpointTerminateMode {
    fn default() -> (r: Self)
        ensures
            r == EndpointTerminateMode::Fast,
    {
        EndpointTerminateMode::Fast
    }
}

impl EndpointTerminateMode {
    /// The mode as it is written on command lines.
    pub open spec fn words(self) -> Seq<char> {
        match self {
            EndpointTerminateMode::Fast => "fast"@,
            EndpointTerminateMode::Immediate => "immediate"@,
            EndpointTerminateMode::ImmediateTerminate => "immediate-terminate"@,
        }
    }

    /// The mode as it is written on command lines.
    pub fn as_str(&self) -> (s: &'static str)
        ensures
            s@ == self.words(),
    {
        match self {
            EndpointTerminateMode::Fast => "fast",
            EndpointTerminateMode::Immediate => "immediate",
            EndpointTerminateMode::ImmediateTerminate => "immediate-terminate",
        }
    }
}

} // verus!
