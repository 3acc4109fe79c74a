//! Stopping an endpoint.
use endpoint_control::compute::{ComputeClaims, ComputeClaimsScope, ComputeCtlConfig};
use endpoint_control::control::{HttpMethod, HttpRequest};
use endpoint_control::endpoint::{Endpoint, EndpointConf};
use endpoint_control::error::EndpointError;
use endpoint_control::ids::{ComputeMode, Lsn, PgMajorVersion, TenantId, TimelineId};
use endpoint_control::jwks::JwkSet;
use endpoint_control::local_env::LocalEnv;
use endpoint_control::path::ChildPath;
use endpoint_control::status::EndpointTerminateMode;
use endpoint_control::stop::{StopAction, StopEvent, StopState};

fn endpoint() -> Endpoint {
    let env = LocalEnv {
        endpoints_path: "/neon/endpoints".to_string(),
        neon_distrib_dir: "/neon/bin".to_string(),
        safekeepers: Vec::new(),
    };
    let conf = EndpointConf {
        endpoint_id: "main".to_string(),
        tenant_id: TenantId { text: "aa".to_string() },
        timeline_id: TimelineId { text: "bb".to_string() },
        mode: ComputeMode::Primary,
        pg_port: 55432,
        external_http_port: 55433,
        internal_http_port: 55434,
        pg_version: PgMajorVersion(16),
        grpc: false,
        skip_pg_catalog_updates: true,
        reconfigure_concurrency: 1,
        drop_subscriptions_before_start: false,
        features: Vec::new(),
        cluster: None,
        compute_ctl_config: ComputeCtlConfig { jwks: JwkSet { keys: Vec::new() }, tls: None },
        privileged_role_name: None,
    };
    Endpoint::from_conf("main".to_string(), conf, &env)
}

fn pg_ctl_ran(success: bool) -> StopEvent {
    StopEvent::PgCtlRan {
        success,
        exit_status: "exit status: 1".to_string(),
        stdout: "out".to_string(),
        stderr: "err".to_string(),
    }
}

fn pid_read() -> StopEvent {
    StopEvent::PidRead { text: "4711".to_string() }
}

fn lsn() -> Option<Lsn> {
    Some(Lsn { text: "0/10".to_string() })
}

fn run(mode: EndpointTerminateMode, destroy: bool, events: Vec<StopEvent>) -> StopState {
    let ep = endpoint();
    let mut state = StopState::new();
    for event in events {
        state = ep.stop(mode, destroy, state, event);
    }
    state
}

fn action(mode: EndpointTerminateMode, destroy: bool, state: &StopState) -> StopAction {
    endpoint().stop_action(mode, destroy, "compute", state)
}

#[test]
fn pg_ctl_stops_in_the_given_mode() {
    for (mode, word) in [
        (EndpointTerminateMode::Fast, "fast"),
        (EndpointTerminateMode::Immediate, "immediate"),
    ] {
        assert_eq!(
            action(mode, false, &StopState::Halting),
            StopAction::PgCtl {
                args: vec!["-m".to_string(), word.to_string(), "stop".to_string()],
            }
        );
    }
}

#[test]
fn compute_ctl_terminates_at_once() {
    assert_eq!(
        action(EndpointTerminateMode::ImmediateTerminate, false, &StopState::Halting),
        StopAction::Terminate {
            request: HttpRequest {
                method: HttpMethod::Post,
                url: "http://0.0.0.0:55433/terminate?mode=immediate".to_string(),
                claims: Some(ComputeClaims {
                    compute_id: None,
                    scope: Some(ComputeClaimsScope::Admin),
                    audience: Some(vec!["compute".to_string()]),
                }),
                timeout_seconds: None,
            },
        }
    );
}

#[test]
fn kept_endpoint_keeps_its_directory() {
    let state = run(
        EndpointTerminateMode::Fast,
        false,
        vec![pg_ctl_ran(true), pid_read(), StopEvent::Exited],
    );
    assert_eq!(state, StopState::Stopped { lsn: None });
    assert_eq!(action(EndpointTerminateMode::Fast, false, &state), StopAction::Finish);
}

#[test]
fn destroyed_endpoint_is_removed_last() {
    let mode = EndpointTerminateMode::ImmediateTerminate;
    let terminated = || StopEvent::Terminated { lsn: lsn() };
    let state = run(mode, true, vec![terminated(), pid_read(), StopEvent::Exited]);
    assert_eq!(state, StopState::Removing { lsn: lsn() });
    let dir = || ChildPath::root("/neon/endpoints").join("main");
    assert_eq!(
        action(mode, true, &state),
        StopAction::RemoveDir { pgdata: dir().join("pgdata"), path: dir() }
    );
    let events = vec![terminated(), pid_read(), StopEvent::Exited, StopEvent::Removed];
    assert_eq!(run(mode, true, events), StopState::Stopped { lsn: lsn() });
}

#[test]
fn sigterm_unless_fast_and_kept() {
    for (mode, destroy, send_sigterm) in [
        (EndpointTerminateMode::Fast, false, false),
        (EndpointTerminateMode::Fast, true, true),
        (EndpointTerminateMode::Immediate, false, true),
        (EndpointTerminateMode::Immediate, true, true),
        (EndpointTerminateMode::ImmediateTerminate, false, true),
        (EndpointTerminateMode::ImmediateTerminate, true, true),
    ] {
        let state = StopState::AwaitingExit { lsn: None, pid: 4711 };
        assert_eq!(
            action(mode, destroy, &state),
            StopAction::AwaitExit { pid: 4711, send_sigterm }
        );
    }
}

#[test]
fn pid_comes_from_its_file() {
    let mode = EndpointTerminateMode::Fast;
    let state = run(mode, false, vec![pg_ctl_ran(true)]);
    assert_eq!(
        action(mode, false, &state),
        StopAction::ReadPid {
            path: ChildPath::root("/neon/endpoints").join("main").join("compute_ctl.pid"),
        }
    );
    assert_eq!(
        run(mode, false, vec![pg_ctl_ran(true), pid_read()]),
        StopState::AwaitingExit { lsn: None, pid: 4711 }
    );
    let garbled = StopEvent::PidRead { text: "x".to_string() };
    assert_eq!(
        run(mode, false, vec![pg_ctl_ran(true), garbled]),
        StopState::Failed {
            error: EndpointError::InvalidPid { cause: "invalid digit found in string".to_string() },
        }
    );
}

#[test]
fn failure_of_pg_ctl_ends_the_stop() {
    assert_eq!(
        run(EndpointTerminateMode::Fast, true, vec![pg_ctl_ran(false)]),
        StopState::Failed {
            error: EndpointError::PgCtlFailed {
                exit_status: "exit status: 1".to_string(),
                stdout: "out".to_string(),
                stderr: "err".to_string(),
            },
        }
    );
}

#[test]
fn failure_outside_ends_the_stop() {
    let failed = || StopEvent::IoFailed { cause: "gone".to_string() };
    let wanted = StopState::Failed { error: EndpointError::Io { cause: "gone".to_string() } };
    let mode = EndpointTerminateMode::Fast;
    assert_eq!(run(mode, true, vec![failed()]), wanted);
    assert_eq!(run(mode, true, vec![pg_ctl_ran(true), failed()]), wanted);
    assert_eq!(run(mode, true, vec![pg_ctl_ran(true), pid_read(), failed()]), wanted);
    assert_eq!(
        run(mode, true, vec![pg_ctl_ran(true), pid_read(), StopEvent::Exited, failed()]),
        wanted
    );
}

#[test]
fn outcomes_out_of_turn_change_nothing() {
    let mode = EndpointTerminateMode::ImmediateTerminate;
    assert_eq!(run(mode, true, vec![pg_ctl_ran(true)]), StopState::Halting);
    assert_eq!(run(mode, true, vec![StopEvent::Removed]), StopState::Halting);
    assert_eq!(
        run(EndpointTerminateMode::Fast, true, vec![StopEvent::Terminated { lsn: lsn() }]),
        StopState::Halting
    );
}
