//! Numbers, texts, addresses, statuses and errors.
use endpoint_control::address::{write_host_port, Ipv4Address, SocketAddress};
use endpoint_control::command::{parse_pid, signed_pid};
use endpoint_control::compute::ComputeStatus;
use endpoint_control::error::EndpointError;
use endpoint_control::ids::{
    NodeId, NonZeroSeconds, ShardCount, ShardIndex, ShardNumber, TenantId, TimelineId,
};
use endpoint_control::path::ChildPath;
use endpoint_control::status::{EndpointStatus, EndpointTerminateMode};
use endpoint_control::text::{is_before, join, to_decimal};

#[test]
fn numbers_are_written_in_decimal() {
    assert_eq!(to_decimal(0), "0");
    assert_eq!(to_decimal(9), "9");
    assert_eq!(to_decimal(10), "10");
    assert_eq!(to_decimal(55432), "55432");
    assert_eq!(to_decimal(u64::MAX), "18446744073709551615");
}

#[test]
fn numerals_read_as_std_reads_them() {
    for text in [
        "", "+", "-", "0", "-0", "+0", "7", "+7", "-7", "007", "4294967295", "4294967296",
        "42949672950", " 7", "7 ", "7\n", "1_000", "0x10", "99999999999999999999", "++1", "+-1",
    ] {
        let wanted = match text.parse::<u32>() {
            Ok(pid) => Ok(pid as i32),
            Err(error) => Err(EndpointError::InvalidPid { cause: error.to_string() }),
        };
        assert_eq!(parse_pid(text), wanted, "{text:?}");
    }
}

#[test]
fn numbers_read_back() {
    for n in [0, 1, 10, 99, 4096, u32::MAX] {
        assert_eq!(parse_pid(&to_decimal(n as u64)), Ok(signed_pid(n)));
    }
}

#[test]
fn pids_are_read_from_their_files() {
    assert_eq!(parse_pid("4711"), Ok(4711));
    assert_eq!(parse_pid("2147483647"), Ok(2147483647));
    assert_eq!(parse_pid("2147483648"), Ok(-2147483648));
    assert_eq!(parse_pid("4294967295"), Ok(-1));
    let invalid = |cause: &str| Err(EndpointError::InvalidPid { cause: cause.to_string() });
    assert_eq!(parse_pid("4711\n"), invalid("invalid digit found in string"));
    assert_eq!(parse_pid(""), invalid("cannot parse integer from empty string"));
    assert_eq!(parse_pid("4294967296"), invalid("number too large to fit in target type"));
    assert_eq!(signed_pid(0), 0);
    assert_eq!(signed_pid(2147483648), -2147483648);
    assert_eq!(signed_pid(4294967295), -1);
}

#[test]
fn texts_are_joined_with_separators() {
    let parts = vec!["a".to_string(), "b".to_string(), "c".to_string()];
    assert_eq!(join(&parts, ","), "a,b,c");
    assert_eq!(join(&vec!["a".to_string()], ","), "a");
    assert_eq!(join(&Vec::new(), ","), "");
}

#[test]
fn texts_are_ordered_as_std_orders_them() {
    let texts = ["", "a", "ab", "b", "B", "ep-1", "ep-10", "ep-2", "\u{e9}", "z", "\u{10000}", "\u{ffff}"];
    for a in texts {
        for b in texts {
            assert_eq!(is_before(a, b), a < b, "{a:?} {b:?}");
        }
    }
}

#[test]
fn localhost_is_dotted() {
    assert_eq!(Ipv4Address::localhost().to_text(), "127.0.0.1");
    assert_eq!(Ipv4Address::unspecified().to_text(), "0.0.0.0");
    assert_eq!(Ipv4Address(10, 200, 3, 255).to_text(), "10.200.3.255");
}

#[test]
fn addresses_are_written_with_their_ports() {
    let address = SocketAddress { ip: Ipv4Address::localhost(), port: 55432 };
    assert_eq!(address.to_text(), "127.0.0.1:55432");
    assert_eq!(write_host_port("localhost", 0), "localhost:0");
    assert_eq!(write_host_port("localhost", 65535), "localhost:65535");
}

#[test]
fn paths_are_joined() {
    let path = ChildPath::root("/neon/endpoints").join("main").join("pgdata");
    assert_eq!(path.base, "/neon/endpoints");
    assert_eq!(path.parts, vec!["main".to_string(), "pgdata".to_string()]);
}

#[test]
fn seconds_are_not_zero() {
    assert_eq!(NonZeroSeconds::new(0), None);
    assert_eq!(NonZeroSeconds::new(60).unwrap().get(), 60);
    assert_eq!(NonZeroSeconds::new(u64::MAX).unwrap().get(), u64::MAX);
}

#[test]
fn shard_counts() {
    assert!(ShardCount::unsharded().is_unsharded());
    assert_eq!(ShardCount::unsharded().count(), 1);
    assert!(!ShardCount(1).is_unsharded());
    assert_eq!(ShardCount(8).count(), 8);
    assert_eq!(
        ShardIndex::unsharded(),
        ShardIndex { shard_number: ShardNumber(0), shard_count: ShardCount(0) }
    );
}

#[test]
fn status_follows_pidfile_and_connection() {
    assert_eq!(EndpointStatus::from_probe(true, true), EndpointStatus::Running);
    assert_eq!(EndpointStatus::from_probe(false, false), EndpointStatus::Stopped);
    assert_eq!(EndpointStatus::from_probe(true, false), EndpointStatus::Crashed);
    assert_eq!(EndpointStatus::from_probe(false, true), EndpointStatus::RunningNoPidfile);
}

#[test]
fn statuses_and_modes_in_words() {
    assert_eq!(EndpointStatus::Running.as_str(), "running");
    assert_eq!(EndpointStatus::Stopped.as_str(), "stopped");
    assert_eq!(EndpointStatus::Crashed.as_str(), "crashed");
    assert_eq!(EndpointStatus::RunningNoPidfile.as_str(), "running, no pidfile");
    assert_eq!(EndpointTerminateMode::Fast.as_str(), "fast");
    assert_eq!(EndpointTerminateMode::Immediate.as_str(), "immediate");
    assert_eq!(EndpointTerminateMode::ImmediateTerminate.as_str(), "immediate-terminate");
    assert_eq!(EndpointTerminateMode::default(), EndpointTerminateMode::Fast);
}

#[test]
fn compute_statuses_are_spelled_as_they_are_named() {
    for status in [
        ComputeStatus::Empty,
        ComputeStatus::ConfigurationPending,
        ComputeStatus::Init,
        ComputeStatus::Running,
        ComputeStatus::Configuration,
        ComputeStatus::Failed,
        ComputeStatus::TerminationPendingFast,
        ComputeStatus::TerminationPendingImmediate,
        ComputeStatus::Terminated,
        ComputeStatus::RefreshConfigurationPending,
        ComputeStatus::RefreshConfiguration,
    ] {
        assert_eq!(status.name(), format!("{status:?}"));
    }
}

fn said(error: EndpointError) -> String {
    error.message("0102", "10s")
}

#[test]
fn errors_say_what_happened() {
    assert_eq!(said(EndpointError::AlreadyRunning), "The endpoint is already running");
    assert_eq!(
        said(EndpointError::SafekeeperMissing { id: NodeId(7) }),
        "safekeeper 7 does not exist"
    );
    assert_eq!(
        said(EndpointError::ShardMissing { shard: ShardIndex::unsharded() }),
        "shard 0102 not found in pageserver_connection_info"
    );
    assert_eq!(said(EndpointError::ShardWithoutPageserver), "must have at least one pageserver");
    assert_eq!(said(EndpointError::NoPageservers), "no pageservers provided");
    assert_eq!(
        said(EndpointError::InitTimedOut),
        "compute startup timed out 10s; still in Init state"
    );
    assert_eq!(
        said(EndpointError::ConnectTimedOut { cause: "refused".to_string() }),
        "timed out 10s waiting to connect to compute_ctl HTTP"
    );
    assert_eq!(
        said(EndpointError::StartupFailed { reason: Some("no disk".to_string()) }),
        "compute startup failed: no disk"
    );
    assert_eq!(
        said(EndpointError::StartupFailed { reason: None }),
        "compute startup failed: <no error from compute_ctl>"
    );
    assert_eq!(
        said(EndpointError::UnexpectedStatus { status: ComputeStatus::Terminated }),
        "unexpected compute status: Terminated"
    );
    assert_eq!(said(EndpointError::Http { message: "Error: no".to_string() }), "Error: no");
    assert_eq!(said(EndpointError::InvalidPublicKey { cause: "no key".to_string() }), "no key");
    assert_eq!(said(EndpointError::NotUtf8 { cause: "no text".to_string() }), "no text");
    assert_eq!(said(EndpointError::InvalidPid { cause: "no pid".to_string() }), "no pid");
    assert_eq!(said(EndpointError::Vanished { cause: "no file".to_string() }), "no file");
    assert_eq!(said(EndpointError::Io { cause: "gone".to_string() }), "gone");
    assert_eq!(said(EndpointError::BadAddress { cause: "bad".to_string() }), "bad");
    assert_eq!(
        said(EndpointError::PgCtlFailed {
            exit_status: "exit status: 1".to_string(),
            stdout: "out".to_string(),
            stderr: "err".to_string(),
        }),
        "pg_ctl failed, exit code: exit status: 1, stdout: out, stderr: err"
    );
    assert_eq!(
        said(EndpointError::NotADirectory { path: "/e/x".to_string() }),
        "Endpoint::from_dir_entry failed: '/e/x' is not a directory"
    );
}

#[test]
fn duplicate_primary_is_named_in_quotes() {
    let error = EndpointError::DuplicatePrimary {
        tenant_id: TenantId { text: "t1".to_string() },
        timeline_id: TimelineId { text: "l1".to_string() },
        endpoint_id: "ma\"in\n".to_string(),
    };
    assert_eq!(
        said(error),
        "attempting to create a duplicate primary endpoint on tenant t1, timeline l1: \
         endpoint \"ma\\\"in\\n\" exists already. please don't do this, it is not supported."
    );
}
