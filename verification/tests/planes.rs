//! All endpoints of an environment.
use spki::der::Decode;
use spki::{SubjectPublicKeyInfo, SubjectPublicKeyInfoRef};

use endpoint_control::compute::ComputeCtlConfig;
use endpoint_control::endpoint::{Endpoint, EndpointConf};
use endpoint_control::error::EndpointError;
use endpoint_control::ids::{ComputeMode, Lsn, NodeId, PgMajorVersion, TenantId, TimelineId};
use endpoint_control::jwks::{
    AlgorithmParameters, EllipticCurve, Jwk, JwkSet, KeyAlgorithm, KeyOperations, Pem,
    PublicKeyUse,
};
use endpoint_control::local_env::{LocalEnv, SafekeeperConf};
use endpoint_control::plane::{ComputeControlPlane, DirEntryRead, EndpointMap, NewEndpoint};
use endpoint_control::status::EndpointStatus;

fn env() -> LocalEnv {
    LocalEnv {
        endpoints_path: "/neon/endpoints".to_string(),
        neon_distrib_dir: "/neon/bin".to_string(),
        safekeepers: vec![SafekeeperConf { id: NodeId(1), compute_port: 7676 }],
    }
}

fn tenant(text: &str) -> TenantId {
    TenantId { text: text.to_string() }
}

fn timeline(text: &str) -> TimelineId {
    TimelineId { text: text.to_string() }
}

fn conf(id: &str, mode: ComputeMode, pg_port: u16, external_http_port: u16) -> EndpointConf {
    EndpointConf {
        endpoint_id: id.to_string(),
        tenant_id: tenant("aa"),
        timeline_id: timeline("bb"),
        mode,
        pg_port,
        external_http_port,
        internal_http_port: 1,
        pg_version: PgMajorVersion(16),
        grpc: false,
        skip_pg_catalog_updates: true,
        reconfigure_concurrency: 1,
        drop_subscriptions_before_start: false,
        features: Vec::new(),
        cluster: None,
        compute_ctl_config: ComputeCtlConfig { jwks: JwkSet { keys: Vec::new() }, tls: None },
        privileged_role_name: None,
    }
}

fn endpoint(id: &str, pg_port: u16) -> Endpoint {
    Endpoint::from_conf(id.to_string(), conf(id, ComputeMode::Primary, pg_port, 2), &env())
}

fn entry(id: &str, mode: ComputeMode, pg_port: u16, external_http_port: u16) -> DirEntryRead {
    DirEntryRead::Conf {
        endpoint_id: id.to_string(),
        conf: conf(id, mode, pg_port, external_http_port),
    }
}

fn load(entries: Vec<DirEntryRead>) -> ComputeControlPlane {
    ComputeControlPlane::load(env(), entries).unwrap()
}

fn vanished() -> DirEntryRead {
    DirEntryRead::Vanished { cause: "no such file".to_string() }
}

fn ids(plane: &ComputeControlPlane) -> Vec<&str> {
    let mut ids = Vec::new();
    for ep in plane.endpoints.listing() {
        ids.push(ep.endpoint_id.as_str());
    }
    ids
}

/// An Ed25519 public key, as a `SubjectPublicKeyInfo`.
fn public_key() -> Pem {
    let mut contents = vec![0x30, 0x2a, 0x30, 0x05, 0x06, 0x03, 0x2b, 0x65, 0x70, 0x03, 0x21, 0x00];
    for i in 0..32u8 {
        contents.push(255 - i);
    }
    Pem { contents }
}

fn new_endpoint(
    plane: &ComputeControlPlane,
    id: &str,
    pg_port: Option<u16>,
    external_http_port: Option<u16>,
    internal_http_port: Option<u16>,
) -> NewEndpoint {
    assert!(plane.ports_exist(pg_port, external_http_port, internal_http_port));
    plane
        .new_endpoint(
            id,
            tenant("aa"),
            timeline("bb"),
            pg_port,
            external_http_port,
            internal_http_port,
            PgMajorVersion(17),
            ComputeMode::Primary,
            true,
            false,
            true,
            Some("boss".to_string()),
            &public_key(),
        )
        .unwrap()
}

fn ports(new: &NewEndpoint) -> (u16, u16, u16) {
    (new.conf.pg_port, new.conf.external_http_port, new.conf.internal_http_port)
}

#[test]
fn endpoints_are_listed_by_id() {
    let mut map = EndpointMap::new();
    for id in ["b", "a", "c", "ab", "B"] {
        map.insert(endpoint(id, 1));
    }
    let mut seen = Vec::new();
    for ep in map.listing() {
        seen.push(ep.endpoint_id.clone());
    }
    assert_eq!(seen, vec!["B", "a", "ab", "b", "c"]);
    assert_eq!(map.get("ab"), Some(&endpoint("ab", 1)));
    assert_eq!(map.get("x"), None);
}

#[test]
fn endpoint_with_the_same_id_is_replaced() {
    let mut map = EndpointMap::new();
    map.insert(endpoint("a", 1));
    map.insert(endpoint("b", 2));
    map.insert(endpoint("a", 3));
    assert_eq!(map.listing().len(), 2);
    assert_eq!(map.get("a"), Some(&endpoint("a", 3)));
    assert_eq!(map.get("b"), Some(&endpoint("b", 2)));
}

#[test]
fn endpoints_are_loaded_in_any_order() {
    let a = || entry("a", ComputeMode::Primary, 10, 11);
    let b = || entry("b", ComputeMode::Replica, 20, 21);
    assert_eq!(load(vec![a(), b()]), load(vec![b(), a()]));
    assert_eq!(ids(&load(vec![b(), a()])), vec!["a", "b"]);
}

#[test]
fn vanished_endpoints_are_passed_over() {
    let a = || entry("a", ComputeMode::Primary, 10, 11);
    let plane = load(vec![vanished(), a(), vanished()]);
    assert_eq!(plane, load(vec![a()]));
    assert_eq!(plane.base_port, 55431);
    assert_eq!(plane.env, env());
}

#[test]
fn stray_file_ends_loading() {
    let stray = DirEntryRead::NotADirectory { path: "/neon/endpoints/x".to_string() };
    let broken = DirEntryRead::Failed { cause: "bad json".to_string() };
    assert_eq!(
        ComputeControlPlane::load(env(), vec![vanished(), stray, broken]),
        Err(EndpointError::NotADirectory { path: "/neon/endpoints/x".to_string() })
    );
}

#[test]
fn unreadable_entry_ends_loading() {
    let broken = DirEntryRead::Failed { cause: "bad json".to_string() };
    assert_eq!(
        ComputeControlPlane::load(env(), vec![entry("a", ComputeMode::Primary, 1, 2), broken]),
        Err(EndpointError::Io { cause: "bad json".to_string() })
    );
}

#[test]
fn entries_become_endpoints() {
    assert_eq!(
        Endpoint::from_dir_entry(entry("a", ComputeMode::Primary, 5, 2), &env()),
        Ok(endpoint("a", 5))
    );
    assert_eq!(
        Endpoint::from_dir_entry(vanished(), &env()),
        Err(EndpointError::Vanished { cause: "no such file".to_string() })
    );
}

#[test]
fn first_endpoint_gets_the_first_ports() {
    let plane = load(Vec::new());
    assert_eq!(plane.get_port(), 55432);
    assert_eq!(ports(&new_endpoint(&plane, "a", None, None, None)), (55432, 55433, 55434));
}

#[test]
fn next_port_is_above_postgres_and_external_ports() {
    let a = || entry("a", ComputeMode::Primary, 60000, 100);
    let b = || entry("b", ComputeMode::Primary, 200, 61000);
    assert_eq!(load(vec![a()]).get_port(), 60001);
    assert_eq!(load(vec![a(), b()]).get_port(), 61001);
    // Ports below the base port are as good as any.
    assert_eq!(load(vec![entry("c", ComputeMode::Primary, 10, 11)]).get_port(), 12);
}

#[test]
fn given_ports_are_taken() {
    let plane = load(Vec::new());
    let some = new_endpoint(&plane, "a", Some(1), Some(2), Some(3));
    assert_eq!(ports(&some), (1, 2, 3));
    let external = new_endpoint(&plane, "a", None, Some(7000), None);
    assert_eq!(ports(&external), (55432, 7000, 7001));
    let pg = new_endpoint(&plane, "a", Some(9), None, None);
    assert_eq!(ports(&pg), (9, 55433, 55434));
}

#[test]
fn default_ports_are_fresh() {
    let mut plane = load(Vec::new());
    for id in ["a", "b", "c"] {
        let new = new_endpoint(&plane, id, None, None, None);
        let (pg, external, internal) = ports(&new);
        assert!(pg < external && external < internal);
        for other in plane.endpoints.listing() {
            assert!(other.pg_address.port < pg);
            assert!(other.external_http_address.port < pg);
        }
        plane.register(new.endpoint);
    }
    assert_eq!(ids(&plane), vec!["a", "b", "c"]);
}

#[test]
fn next_port_does_not_fall() {
    let mut plane = load(vec![entry("a", ComputeMode::Primary, 60000, 100)]);
    plane.register(endpoint("b", 200));
    assert_eq!(plane.get_port(), 60001);
    plane.register(endpoint("c", 60500));
    assert_eq!(plane.get_port(), 60501);
}

#[test]
fn ports_run_out() {
    let full = load(vec![entry("a", ComputeMode::Primary, 65535, 1)]);
    assert!(!full.ports_exist(None, Some(1), Some(2)));
    assert!(!full.ports_exist(Some(1), None, Some(2)));
    assert!(!full.ports_exist(Some(1), Some(65535), None));
    assert!(full.ports_exist(Some(1), Some(65535), Some(2)));
    let nearly = load(vec![entry("a", ComputeMode::Primary, 65532, 1)]);
    assert!(nearly.ports_exist(None, None, None));
    let almost = load(vec![entry("a", ComputeMode::Primary, 65533, 1)]);
    assert!(!almost.ports_exist(None, None, None));
    assert!(almost.ports_exist(None, None, Some(1)));
}

#[test]
fn new_endpoint_is_as_configured() {
    let plane = load(Vec::new());
    let new = new_endpoint(&plane, "a", None, None, None);
    assert_eq!(new.conf.reconfigure_concurrency, 1);
    assert_eq!(new.conf.features, Vec::new());
    assert_eq!(new.conf.cluster, None);
    assert_eq!(new.conf.compute_ctl_config.tls, None);
    assert_eq!(new.conf.pg_version, PgMajorVersion(17));
    assert_eq!(new.conf.privileged_role_name, Some("boss".to_string()));
    assert!(new.conf.grpc);
    assert!(!new.conf.skip_pg_catalog_updates);
    assert!(new.conf.drop_subscriptions_before_start);
    assert_eq!(new.endpoint.env, env());
    // What is not registered does not belong to the control plane.
    assert_eq!(plane.endpoints.listing().len(), 0);
}

#[test]
fn new_endpoint_survives_a_reload() {
    let old = || entry("z", ComputeMode::Replica, 100, 101);
    let mut plane = load(vec![old()]);
    let new = new_endpoint(&plane, "a", None, None, None);
    plane.register(new.endpoint);
    let written = DirEntryRead::Conf { endpoint_id: "a".to_string(), conf: new.conf };
    assert_eq!(load(vec![written, old()]), plane);
}

#[test]
fn key_set_holds_the_public_key() {
    let wanted = Jwk {
        public_key_use: Some(PublicKeyUse::Signature),
        key_operations: Some(vec![KeyOperations::Verify]),
        key_algorithm: Some(KeyAlgorithm::EdDSA),
        key_id: Some("GGXACDHnP37iP8E8stD1iLnDQYNcp0cvjsA1q6S3idY".to_string()),
        x509_url: None,
        x509_chain: None,
        x509_sha1_fingerprint: None,
        x509_sha256_fingerprint: None,
        algorithm: AlgorithmParameters::OctetKeyPair {
            curve: EllipticCurve::Ed25519,
            x: "__79_Pv6-fj39vX08_Lx8O_u7ezr6uno5-bl5OPi4eA".to_string(),
        },
    };
    assert_eq!(
        ComputeControlPlane::create_jwks_from_pem(&public_key()),
        Ok(JwkSet { keys: vec![wanted] })
    );
}

/// The error for a key that does not decode, with what the decoder says.
fn refusal(pem: &Pem) -> EndpointError {
    let decoded: Result<SubjectPublicKeyInfoRef, _> =
        SubjectPublicKeyInfo::from_der(&pem.contents);
    EndpointError::InvalidPublicKey { cause: decoded.unwrap_err().to_string() }
}

#[test]
fn refused_key_is_explained() {
    let sequence = Pem { contents: vec![0x30, 0x2a] };
    let refused = ComputeControlPlane::create_jwks_from_pem(&sequence).unwrap_err();
    assert_eq!(refused, refusal(&sequence));
    let said = refused.message("", "");
    assert!(said.starts_with("ASN.1 DER message is incomplete"), "{said}");
}

#[test]
fn key_that_is_no_key_is_refused() {
    let mut pem = public_key();
    pem.contents.pop();
    assert_eq!(ComputeControlPlane::create_jwks_from_pem(&pem), Err(refusal(&pem)));
    let plane = load(Vec::new());
    let refused = plane.new_endpoint(
        "a",
        tenant("aa"),
        timeline("bb"),
        None,
        None,
        None,
        PgMajorVersion(17),
        ComputeMode::Primary,
        true,
        false,
        true,
        None,
        &Pem { contents: Vec::new() },
    );
    assert_eq!(refused, Err(refusal(&Pem { contents: Vec::new() })));
}

fn crowded() -> ComputeControlPlane {
    let mut elsewhere = conf("b", ComputeMode::Primary, 3, 4);
    elsewhere.timeline_id = timeline("cc");
    let mut foreign = conf("c", ComputeMode::Primary, 3, 4);
    foreign.tenant_id = tenant("dd");
    load(vec![
        entry("e", ComputeMode::Primary, 1, 2),
        entry("d", ComputeMode::Primary, 1, 2),
        DirEntryRead::Conf { endpoint_id: "b".to_string(), conf: elsewhere },
        DirEntryRead::Conf { endpoint_id: "c".to_string(), conf: foreign },
        entry("a", ComputeMode::Replica, 1, 2),
    ])
}

fn candidates(mode: &ComputeMode) -> Vec<String> {
    let plane = crowded();
    let mut seen = Vec::new();
    for ep in plane.conflict_candidates(mode, &tenant("aa"), &timeline("bb")) {
        seen.push(ep.endpoint_id.clone());
    }
    seen
}

fn check(mode: &ComputeMode, statuses: Vec<EndpointStatus>) -> Result<(), EndpointError> {
    crowded().check_conflicting_endpoints(mode, &tenant("aa"), &timeline("bb"), &statuses)
}

fn duplicate(id: &str) -> Result<(), EndpointError> {
    Err(EndpointError::DuplicatePrimary {
        tenant_id: tenant("aa"),
        timeline_id: timeline("bb"),
        endpoint_id: id.to_string(),
    })
}

#[test]
fn primaries_on_the_timeline_conflict() {
    assert_eq!(candidates(&ComputeMode::Primary), vec!["d", "e"]);
    assert_eq!(candidates(&ComputeMode::Replica), Vec::<String>::new());
    let mode = ComputeMode::Static(Lsn { text: "0/10".to_string() });
    assert_eq!(candidates(&mode), Vec::<String>::new());
}

#[test]
fn stopped_primaries_are_no_conflict() {
    let stopped = || vec![EndpointStatus::Stopped, EndpointStatus::Stopped];
    assert_eq!(check(&ComputeMode::Primary, stopped()), Ok(()));
    assert_eq!(check(&ComputeMode::Replica, Vec::new()), Ok(()));
}

#[test]
fn first_primary_that_is_up_is_named() {
    let up = EndpointStatus::Running;
    let down = EndpointStatus::Stopped;
    assert_eq!(check(&ComputeMode::Primary, vec![up, up]), duplicate("d"));
    assert_eq!(check(&ComputeMode::Primary, vec![down, up]), duplicate("e"));
    assert_eq!(check(&ComputeMode::Primary, vec![up]), duplicate("d"));
}

#[test]
fn conflict_stays_with_more_endpoints() {
    let up = || vec![EndpointStatus::Running];
    let named = |plane: &ComputeControlPlane| {
        plane.check_conflicting_endpoints(
            &ComputeMode::Primary,
            &tenant("aa"),
            &timeline("bb"),
            &up(),
        )
    };
    let mut plane = load(vec![entry("m", ComputeMode::Primary, 1, 2)]);
    assert_eq!(named(&plane), duplicate("m"));
    plane.register(endpoint("z", 1));
    assert_eq!(named(&plane), duplicate("m"));
    plane.register(endpoint("c", 1));
    assert_eq!(named(&plane), duplicate("c"));
}

#[test]
fn crashed_primaries_are_in_the_way_too() {
    let crashed = EndpointStatus::Crashed;
    let half = EndpointStatus::RunningNoPidfile;
    assert_eq!(check(&ComputeMode::Primary, vec![crashed]), duplicate("d"));
    assert_eq!(
        check(&ComputeMode::Primary, vec![EndpointStatus::Stopped, half]),
        duplicate("e")
    );
}
