//! What the operations of this crate promise, each stated over what goes in and what comes out.
use vstd::prelude::*;
use vstd::utf8::{encode_utf8, valid_utf8};

use crate::address::{dotted, host_port, Ipv4Address, SocketAddress};
use crate::command::{
    as_signed, pg_ctl_command, pid_of, CommandArgView, CommandLineView,
};
use crate::compute::{
    Cluster, ClusterView, ComputeAuditView, ComputeClaimsScope, ComputeConfigView, ComputeSpec,
    ComputeSpecView, ComputeStatus, ComputeStatusResponse, ConfigurationRequest,
    StatusResponseView,
};
use crate::conninfo::{
    ConnectionInfoView, PageserverConnectionInfo, PageserverProtocol, ShardUrl,
};
use crate::control::{
    claims, configure_request, error_text, is_error, is_reconfiguration, reconfigured,
    refresh_request, status_request, terminate_request, HttpMethod,
};
use crate::endpoint::{
    endpoint_of, is_first_unknown, law_safekeepers_keep_their_order, pg_conf,
    safekeeper_connstrings, Endpoint, EndpointConf, EndpointConfView, EndpointFile, EndpointView,
};
use crate::error::{EndpointError, EndpointErrorView};
use crate::ids::{
    ComputeMode, ComputeModeView, NodeId, PgMajorVersion, SafekeeperGeneration, ShardCount,
    ShardIndex, ShardNumber,
};
use crate::jwks::{jwks_of, verifying_key_set, AlgorithmParametersView, JwkView, NameView};
use crate::local_env::{find_safekeeper, LocalEnvView, SafekeeperConf};
use crate::locate::{
    lemma_no_gap, local_conn_info, located, LocatedShardView, PageServerConfView,
    TenantLocateResponseShard, TenantLocateView,
};
use crate::outside::{
    base64_url, debug_quoted, sha256, spki_public_key, u32_error_text, utf8_error_text,
};
use crate::path::{root_path, ChildPathView};
use crate::plane::{
    by_id, entry_endpoint, has_id, is_first_up, lemma_by_id, lemma_rivals_ascend, lemma_top_port,
    lemma_top_port_is_used, loaded, new_conf, rivals, DirEntryView, PlaneView, PortsView,
};
use crate::postgresql_conf::ConfEntryView;
use crate::start::{
    EndpointStartArgs, FileReadView, StartActionView, StartArgsView, StartEventView, StartStateView,
};
use crate::status::{EndpointStatus, EndpointTerminateMode};
use crate::stop::{StopActionView, StopEventView, StopStateView};
use crate::text::{
    all_digits, decimal, digits_value, joined, lemma_decimal_value, numeral_u32,
    separated, text_before,
};
use crate::{start, stop};

verus! {

// ---------------------------------------------------------------------------------------------
// Text
// ---------------------------------------------------------------------------------------------

/// A number's decimal numeral is made of digits, denotes the number, and does not begin with a
/// zero unless it is the numeral of zero.
pub proof fn law_decimal_denotes(n: nat)
    ensures
        decimal(n).len() > 0,
        all_digits(decimal(n)),
        digits_value(decimal(n)) == n,
        n > 0 ==> decimal(n)[0] != '0',
        n == 0 ==> decimal(n) == seq!['0'],
    decreases n,
{
    lemma_decimal_value(n);
    if n >= 10 {
        law_decimal_denotes(n / 10);
        assert(decimal(n)[0] == decimal(n / 10)[0]);
    }
}

/// Joining no parts gives nothing, joining one part gives that part, and one part more comes
/// behind a separator.
pub proof fn law_joined_grows(parts: Seq<Seq<char>>, part: Seq<char>, sep: Seq<char>)
    ensures
        joined(Seq::<Seq<char>>::empty(), sep) == Seq::<char>::empty(),
        parts.len() == 0 ==> joined(parts.push(part), sep) == part,
        parts.len() > 0 ==> joined(parts.push(part), sep) == joined(parts, sep) + sep + part,
{
    let longer = parts.push(part);
    if parts.len() == 0 {
        assert(longer.skip(1) =~= Seq::<Seq<char>>::empty());
        assert(joined(longer, sep) =~= part);
    } else {
        assert(longer.skip(1) =~= parts.skip(1).push(part));
        assert(longer.skip(1).drop_last() =~= parts.skip(1));
        assert(separated(longer.skip(1), sep) == separated(parts.skip(1), sep) + sep + part);
        assert(joined(longer, sep) =~= joined(parts, sep) + sep + part);
    }
}

/// Whether two texts are the same before position `k`, and `a` ends there or has the smaller
/// character.
pub open spec fn parts_at(a: Seq<char>, b: Seq<char>, k: int) -> bool {
    &&& 0 <= k <= a.len()
    &&& k < b.len()
    &&& a.take(k) == b.take(k)
    &&& k == a.len() || (a[k] as int) < (b[k] as int)
}

/// Texts are ordered by the first character in which they differ, and a text comes before those
/// that it begins.
pub proof fn law_texts_are_ordered_by_first_difference(a: Seq<char>, b: Seq<char>)
    ensures
        text_before(a, b) <==> exists|k: int| #[trigger] parts_at(a, b, k),
    decreases a.len(),
{
    if b.len() > 0 && a.len() > 0 && a[0] == b[0] {
        let (x, y) = (a.skip(1), b.skip(1));
        law_texts_are_ordered_by_first_difference(x, y);
        if text_before(a, b) {
            let k = choose|k: int| #[trigger] parts_at(x, y, k);
            assert forall|i: int| 0 <= i < k + 1 implies a[i] == b[i] by {
                if i > 0 {
                    assert(x.take(k)[i - 1] == y.take(k)[i - 1]);
                }
            }
            assert(a.take(k + 1) =~= b.take(k + 1));
            assert(parts_at(a, b, k + 1));
        }
        if exists|k: int| #[trigger] parts_at(a, b, k) {
            let k = choose|k: int| #[trigger] parts_at(a, b, k);
            assert(k > 0);
            assert forall|i: int| 0 <= i < k - 1 implies x[i] == y[i] by {
                assert(a.take(k)[i + 1] == b.take(k)[i + 1]);
            }
            assert(x.take(k - 1) =~= y.take(k - 1));
            assert(parts_at(x, y, k - 1));
        }
    } else {
        if text_before(a, b) {
            assert(a.take(0) =~= b.take(0));
            assert(parts_at(a, b, 0));
        }
        if exists|k: int| #[trigger] parts_at(a, b, k) {
            let k = choose|k: int| #[trigger] parts_at(a, b, k);
            if k > 0 {
                assert(a.take(k)[0] == b.take(k)[0]);
            }
        }
    }
}

// ---------------------------------------------------------------------------------------------
// Addresses and URLs
// ---------------------------------------------------------------------------------------------

/// An address is written by its four octets in decimal, with dots between them.
pub proof fn law_address_is_written_by_octets(a: u8, b: u8, c: u8, d: u8)
    ensures
        dotted(Ipv4Address(a, b, c, d)) == joined(
            seq![decimal(a as nat), decimal(b as nat), decimal(c as nat), decimal(d as nat)],
            "."@,
        ),
{
    let none = Seq::<Seq<char>>::empty();
    let one = none.push(decimal(a as nat));
    let two = one.push(decimal(b as nat));
    let three = two.push(decimal(c as nat));
    let four = three.push(decimal(d as nat));
    law_joined_grows(none, decimal(a as nat), "."@);
    law_joined_grows(one, decimal(b as nat), "."@);
    law_joined_grows(two, decimal(c as nat), "."@);
    law_joined_grows(three, decimal(d as nat), "."@);
    assert(four =~= seq![
        decimal(a as nat),
        decimal(b as nat),
        decimal(c as nat),
        decimal(d as nat),
    ]);
    assert(dotted(Ipv4Address(a, b, c, d)) =~= joined(four, "."@));
}

/// `host:port` is the host, a colon, and the numeral of the port.
pub proof fn law_host_port_splits(host: Seq<char>, port: u16)
    ensures
        ({
            let text = host_port(host, port);
            let n = host.len() as int;
            &&& text.take(n) == host
            &&& text[n] == ':'
            &&& numeral_u32(text.skip(n + 1)) == Some(port as u32)
            &&& text.skip(n + 1) == decimal(port as nat)
        }),
{
    reveal_strlit(":");
    let text = host_port(host, port);
    let n = host.len() as int;
    assert(":"@.len() == 1 && ":"@[0] == ':');
    assert(text.take(n) =~= host);
    assert(text.skip(n + 1) =~= decimal(port as nat));
    crate::text::law_numeral_reads_back(port as u32);
}

/// The text of an address with its port.
pub open spec fn at(address: SocketAddress) -> Seq<char> {
    dotted(address.ip) + ":"@ + decimal(address.port as nat)
}

/// The connection string of a user and a database leads to where the endpoint's Postgres listens.
pub proof fn law_connection_string(ep: EndpointView, user: Seq<char>, db_name: Seq<char>)
    ensures
        ep.connstr(user, db_name) == "postgresql://"@ + user + "@"@ + at(ep.pg_address) + "/"@
            + db_name,
{
}

// ---------------------------------------------------------------------------------------------
// Files
// ---------------------------------------------------------------------------------------------

/// Whether a path is the path of an endpoint's directory followed by these components.
pub open spec fn lies_at(path: ChildPathView, ep: EndpointView, parts: Seq<Seq<char>>) -> bool {
    path.base == ep.env.endpoints_path && path.parts == seq![ep.endpoint_id] + parts
}

/// Everything of an endpoint lies in the directory that is named by its id, under a fixed name.
pub proof fn law_places(ep: EndpointView)
    ensures
        lies_at(ep.dir(), ep, seq![]),
        lies_at(ep.pgdata(), ep, seq!["pgdata"@]),
        lies_at(ep.postmaster_pid(), ep, seq!["pgdata"@, "postmaster.pid"@]),
        lies_at(ep.file(EndpointFile::EndpointJson), ep, seq!["endpoint.json"@]),
        lies_at(ep.file(EndpointFile::PostgresqlConf), ep, seq!["postgresql.conf"@]),
        lies_at(ep.file(EndpointFile::ConfigJson), ep, seq!["config.json"@]),
        lies_at(ep.file(EndpointFile::ComputeLog), ep, seq!["compute.log"@]),
        lies_at(ep.file(EndpointFile::ComputeCtlPid), ep, seq!["compute_ctl.pid"@]),
        lies_at(
            ep.file(EndpointFile::RemoteExtensionsSpec),
            ep,
            seq!["remote_extensions_spec.json"@],
        ),
{
    assert(ep.dir().parts =~= seq![ep.endpoint_id] + seq![]);
    assert(ep.pgdata().parts =~= seq![ep.endpoint_id] + seq!["pgdata"@]);
    assert(ep.postmaster_pid().parts =~= seq![ep.endpoint_id] + seq![
        "pgdata"@,
        "postmaster.pid"@,
    ]);
    assert(ep.file(EndpointFile::EndpointJson).parts =~= seq![ep.endpoint_id] + seq![
        "endpoint.json"@,
    ]);
    assert(ep.file(EndpointFile::PostgresqlConf).parts =~= seq![ep.endpoint_id] + seq![
        "postgresql.conf"@,
    ]);
    assert(ep.file(EndpointFile::ConfigJson).parts =~= seq![ep.endpoint_id] + seq![
        "config.json"@,
    ]);
    assert(ep.file(EndpointFile::ComputeLog).parts =~= seq![ep.endpoint_id] + seq![
        "compute.log"@,
    ]);
    assert(ep.file(EndpointFile::ComputeCtlPid).parts =~= seq![ep.endpoint_id] + seq![
        "compute_ctl.pid"@,
    ]);
    assert(ep.file(EndpointFile::RemoteExtensionsSpec).parts =~= seq![ep.endpoint_id] + seq![
        "remote_extensions_spec.json"@,
    ]);
}

// ---------------------------------------------------------------------------------------------
// New endpoints and ports
// ---------------------------------------------------------------------------------------------

/// An endpoint has what its configuration says, the id of its directory, and its environment.
/// Its Postgres and its internal API listen on the loopback interface, its external API on every
/// interface.
pub proof fn law_endpoint_is_as_configured(
    endpoint_id: Seq<char>,
    conf: EndpointConfView,
    env: LocalEnvView,
)
    ensures
        ({
            let ep = endpoint_of(endpoint_id, conf, env);
            &&& ep.endpoint_id == endpoint_id
            &&& ep.env == env
            &&& ep.tenant_id == conf.tenant_id
            &&& ep.timeline_id == conf.timeline_id
            &&& ep.mode == conf.mode
            &&& ep.grpc == conf.grpc
            &&& ep.pg_version == conf.pg_version
            &&& ep.skip_pg_catalog_updates == conf.skip_pg_catalog_updates
            &&& ep.drop_subscriptions_before_start == conf.drop_subscriptions_before_start
            &&& ep.reconfigure_concurrency == conf.reconfigure_concurrency
            &&& ep.features == conf.features
            &&& ep.cluster == conf.cluster
            &&& ep.compute_ctl_config == conf.compute_ctl_config
            &&& ep.privileged_role_name == conf.privileged_role_name
            &&& ep.pg_address.ip == Ipv4Address(127, 0, 0, 1)
            &&& ep.pg_address.port == conf.pg_port
            &&& ep.external_http_address.ip == Ipv4Address(0, 0, 0, 0)
            &&& ep.external_http_address.port == conf.external_http_port
            &&& ep.internal_http_address.ip == Ipv4Address(127, 0, 0, 1)
            &&& ep.internal_http_address.port == conf.internal_http_port
        }),
{
}

/// A new endpoint, and the configuration that is written for it, has what was asked for: the
/// tenant, the timeline, the mode, the version, the flags, the ports and the keys. It is a primary
/// on a timeline exactly if it was asked to be one there.
pub proof fn law_new_endpoint_is_as_asked_for(
    plane: PlaneView,
    endpoint_id: Seq<char>,
    tenant_id: Seq<char>,
    timeline_id: Seq<char>,
    ports: PortsView,
    pg_version: PgMajorVersion,
    mode: ComputeModeView,
    grpc: bool,
    skip_pg_catalog_updates: bool,
    drop_subscriptions_before_start: bool,
    privileged_role_name: Option<Seq<char>>,
    jwks: Seq<JwkView>,
)
    requires
        0 <= ports.pg <= u16::MAX,
        0 <= ports.external_http <= u16::MAX,
        0 <= ports.internal_http <= u16::MAX,
    ensures
        ({
            let conf = new_conf(
                endpoint_id,
                tenant_id,
                timeline_id,
                ports,
                pg_version,
                mode,
                grpc,
                skip_pg_catalog_updates,
                drop_subscriptions_before_start,
                privileged_role_name,
                jwks,
            );
            let ep = endpoint_of(endpoint_id, conf, plane.env);
            &&& conf.endpoint_id == endpoint_id && ep.endpoint_id == endpoint_id
            &&& conf.tenant_id == tenant_id && ep.tenant_id == tenant_id
            &&& conf.timeline_id == timeline_id && ep.timeline_id == timeline_id
            &&& conf.mode == mode && ep.mode == mode
            &&& conf.pg_version == pg_version && ep.pg_version == pg_version
            &&& conf.grpc == grpc && ep.grpc == grpc
            &&& conf.skip_pg_catalog_updates == skip_pg_catalog_updates
            &&& ep.skip_pg_catalog_updates == skip_pg_catalog_updates
            &&& conf.drop_subscriptions_before_start == drop_subscriptions_before_start
            &&& ep.drop_subscriptions_before_start == drop_subscriptions_before_start
            &&& conf.privileged_role_name == privileged_role_name
            &&& ep.privileged_role_name == privileged_role_name
            &&& conf.pg_port == ports.pg && ep.pg_address.port == ports.pg
            &&& conf.external_http_port == ports.external_http
            &&& ep.external_http_address.port == ports.external_http
            &&& conf.internal_http_port == ports.internal_http
            &&& ep.internal_http_address.port == ports.internal_http
            &&& conf.compute_ctl_config.jwks == jwks && ep.compute_ctl_config.jwks == jwks
            &&& conf.compute_ctl_config.tls is None && ep.compute_ctl_config.tls is None
            &&& conf.reconfigure_concurrency == 1 && ep.reconfigure_concurrency == 1
            &&& conf.features.len() == 0 && ep.features.len() == 0
            &&& conf.cluster is None && ep.cluster is None
            &&& ep.env == plane.env
            &&& forall|tenant: Seq<char>, timeline: Seq<char>| #[trigger]
                rivals(seq![ep], ComputeModeView::Primary, tenant, timeline).contains(ep) <==> mode
                    is Primary && tenant == tenant_id && timeline == timeline_id
        }),
{
    let conf = new_conf(
        endpoint_id,
        tenant_id,
        timeline_id,
        ports,
        pg_version,
        mode,
        grpc,
        skip_pg_catalog_updates,
        drop_subscriptions_before_start,
        privileged_role_name,
        jwks,
    );
    let ep = endpoint_of(endpoint_id, conf, plane.env);
    assert forall|tenant: Seq<char>, timeline: Seq<char>| #[trigger]
        rivals(seq![ep], ComputeModeView::Primary, tenant, timeline).contains(ep) <==> mode
            is Primary && tenant == tenant_id && timeline == timeline_id by {
        law_rivals(seq![ep], ComputeModeView::Primary, tenant, timeline);
        assert(seq![ep][0] == ep);
        assert(seq![ep].contains(ep));
    }
}

/// Ports that are asked for are taken. A Postgres port that is not asked for is the next one, an
/// external port the one behind it, and an internal port the one behind the external port.
pub proof fn law_ports_are_given_or_next(
    plane: PlaneView,
    pg_port: Option<u16>,
    external_http_port: Option<u16>,
    internal_http_port: Option<u16>,
)
    ensures
        ({
            let ports = plane.ports(pg_port, external_http_port, internal_http_port);
            &&& pg_port matches Some(port) ==> ports.pg == port
            &&& pg_port is None ==> ports.pg == plane.next_port()
            &&& external_http_port matches Some(port) ==> ports.external_http == port
            &&& external_http_port is None ==> ports.external_http == plane.next_port() + 1
            &&& internal_http_port matches Some(port) ==> ports.internal_http == port
            &&& internal_http_port is None ==> ports.internal_http == ports.external_http + 1
            &&& ports.exist() <==> ports.pg <= 65535 && ports.external_http <= 65535
                && ports.internal_http <= 65535
        }),
{
}

/// The next port is the one above the base port if there are no endpoints. Else it is above the
/// Postgres and the external port of every endpoint, and just above one of them.
pub proof fn law_next_port(plane: PlaneView)
    ensures
        plane.endpoints.len() == 0 ==> plane.next_port() == plane.base_port + 1,
        forall|i: int|
            0 <= i < plane.endpoints.len() ==> (#[trigger] plane.endpoints[i]).pg_address.port
                < plane.next_port() && plane.endpoints[i].external_http_address.port
                < plane.next_port(),
        plane.endpoints.len() > 0 ==> exists|i: int|
            0 <= i < plane.endpoints.len() && ((#[trigger] plane.endpoints[i]).pg_address.port + 1
                == plane.next_port() || plane.endpoints[i].external_http_address.port + 1
                == plane.next_port()),
{
    assert forall|i: int| 0 <= i < plane.endpoints.len() implies (
    #[trigger] plane.endpoints[i]).pg_address.port < plane.next_port()
        && plane.endpoints[i].external_http_address.port < plane.next_port() by {
        lemma_top_port(plane.endpoints, i);
    }
    if plane.endpoints.len() > 0 {
        let i = lemma_top_port_is_used(plane.endpoints);
        assert(plane.endpoints[i].pg_address.port + 1 == plane.next_port()
            || plane.endpoints[i].external_http_address.port + 1 == plane.next_port());
    }
}

// ---------------------------------------------------------------------------------------------
// The control plane
// ---------------------------------------------------------------------------------------------

/// Endpoints are found under their ids, and nothing is found under any other id.
pub proof fn law_endpoints_are_found_by_id(listing: Seq<EndpointView>)
    requires
        forall|i: int, j: int|
            0 <= i < j < listing.len() ==> text_before(
                (#[trigger] listing[i]).endpoint_id,
                (#[trigger] listing[j]).endpoint_id,
            ),
    ensures
        forall|i: int|
            0 <= i < listing.len() ==> by_id(listing).contains_key(
                (#[trigger] listing[i]).endpoint_id,
            ) && by_id(listing)[listing[i].endpoint_id] == listing[i],
        forall|id: Seq<char>| #[trigger]
            by_id(listing).contains_key(id) ==> exists|i: int|
                0 <= i < listing.len() && (#[trigger] listing[i]).endpoint_id == id,
{
    assert forall|i: int| 0 <= i < listing.len() implies by_id(listing).contains_key(
        (#[trigger] listing[i]).endpoint_id,
    ) && by_id(listing)[listing[i].endpoint_id] == listing[i] by {
        lemma_by_id(listing, i);
    }
    assert forall|id: Seq<char>| #[trigger] by_id(listing).contains_key(id) implies exists|i: int|
        0 <= i < listing.len() && (#[trigger] listing[i]).endpoint_id == id by {
        assert(has_id(listing, id));
    }
}

/// Whether an entry of the directory of endpoints ends loading.
pub open spec fn ends_loading(entry: DirEntryView) -> bool {
    entry is NotADirectory || entry is Failed
}

/// Whether the `i`-th entry is the first that ends loading.
pub open spec fn is_first_bad(entries: Seq<DirEntryView>, i: int) -> bool {
    &&& 0 <= i < entries.len()
    &&& ends_loading(entries[i])
    &&& forall|j: int| 0 <= j < i ==> !ends_loading(#[trigger] entries[j])
}

/// Loading fails exactly if some entry is not a directory or cannot be read, with the first such
/// entry.
pub proof fn law_first_bad_entry_is_reported(entries: Seq<DirEntryView>, env: LocalEnvView)
    ensures
        match loaded(entries, env) {
            Ok(_) => forall|i: int|
                0 <= i < entries.len() ==> !ends_loading(#[trigger] entries[i]),
            Err(error) => exists|i: int| #[trigger]
                is_first_bad(entries, i) && match entries[i] {
                    DirEntryView::NotADirectory { path } => error == (
                    EndpointErrorView::NotADirectory { path }),
                    DirEntryView::Failed { cause } => error == (EndpointErrorView::Io { cause }),
                    _ => false,
                },
        },
    decreases entries.len(),
{
    if entries.len() > 0 {
        let before = entries.drop_last();
        let last = entries.len() - 1;
        law_first_bad_entry_is_reported(before, env);
        assert(entries[last] == entries.last());
        assert(forall|i: int| 0 <= i < last ==> before[i] == #[trigger] entries[i]);
        if loaded(before, env) is Err {
            let i = choose|i: int| #[trigger]
                is_first_bad(before, i) && match before[i] {
                    DirEntryView::NotADirectory { path } => loaded(before, env)->Err_0 == (
                    EndpointErrorView::NotADirectory { path }),
                    DirEntryView::Failed { cause } => loaded(before, env)->Err_0 == (
                    EndpointErrorView::Io { cause }),
                    _ => false,
                };
            assert(entries[i] == before[i]);
            assert(is_first_bad(entries, i));
        } else if loaded(entries, env) is Err {
            assert(is_first_bad(entries, last));
        }
    }
}

/// Of several configurations for one id, the last one read counts, under that id.
pub proof fn law_last_conf_counts(entries: Seq<DirEntryView>, env: LocalEnvView, i: int)
    requires
        loaded(entries, env) is Ok,
        0 <= i < entries.len(),
        entries[i] is Conf,
        forall|j: int|
            i < j < entries.len() && (#[trigger] entries[j]) is Conf ==> entries[j]->endpoint_id
                != entries[i]->endpoint_id,
    ensures
        loaded(entries, env)->Ok_0.contains_key(entries[i]->endpoint_id),
        ({
            let ep = loaded(entries, env)->Ok_0[entries[i]->endpoint_id];
            &&& ep == endpoint_of(entries[i]->endpoint_id, entries[i]->conf, env)
            &&& ep.endpoint_id == entries[i]->endpoint_id
            &&& ep.tenant_id == entries[i]->conf.tenant_id
            &&& ep.timeline_id == entries[i]->conf.timeline_id
            &&& ep.mode == entries[i]->conf.mode
        }),
    decreases entries.len(),
{
    let before = entries.drop_last();
    let last = entries.len() - 1;
    assert(entries[last] == entries.last());
    if i < last {
        assert(forall|j: int| 0 <= j < last ==> before[j] == #[trigger] entries[j]);
        law_last_conf_counts(before, env, i);
    }
}

/// What stands in the way of an endpoint: for a primary the endpoints of the same tenant and the
/// same timeline that are primaries, and nothing for any other.
pub proof fn law_rivals(
    listing: Seq<EndpointView>,
    mode: ComputeModeView,
    tenant_id: Seq<char>,
    timeline_id: Seq<char>,
)
    ensures
        forall|ep: EndpointView| #[trigger]
            rivals(listing, mode, tenant_id, timeline_id).contains(ep) <==> mode
                == ComputeModeView::Primary && listing.contains(ep) && ep.tenant_id == tenant_id
                && ep.timeline_id == timeline_id && ep.mode == ComputeModeView::Primary,
        mode != ComputeModeView::Primary ==> rivals(
            listing,
            mode,
            tenant_id,
            timeline_id,
        ).len() == 0,
{
    crate::plane::law_only_primaries_conflict(listing, mode, tenant_id, timeline_id);
}

/// What stands in the way is looked at in the order of the ids.
pub proof fn law_rivals_are_in_order(
    listing: Seq<EndpointView>,
    mode: ComputeModeView,
    tenant_id: Seq<char>,
    timeline_id: Seq<char>,
)
    requires
        forall|i: int, j: int|
            0 <= i < j < listing.len() ==> text_before(
                (#[trigger] listing[i]).endpoint_id,
                (#[trigger] listing[j]).endpoint_id,
            ),
    ensures
        ({
            let all = rivals(listing, mode, tenant_id, timeline_id);
            forall|i: int, j: int|
                0 <= i < j < all.len() ==> text_before(
                    (#[trigger] all[i]).endpoint_id,
                    (#[trigger] all[j]).endpoint_id,
                )
        }),
{
    lemma_rivals_ascend(listing, mode, tenant_id, timeline_id);
}

// ---------------------------------------------------------------------------------------------
// Postgres settings
// ---------------------------------------------------------------------------------------------

/// Whether the `i`-th entry of a configuration sets `name` to `value`.
pub open spec fn sets(
    conf: Seq<ConfEntryView>,
    i: int,
    name: Seq<char>,
    value: Seq<char>,
) -> bool {
    0 <= i < conf.len() && conf[i] == (ConfEntryView::Setting { name, value })
}

/// Every endpoint has these settings, whatever its mode, and Postgres listens where the endpoint
/// is reached.
pub proof fn law_common_settings(ep: EndpointView)
    ensures
        ({
            let conf = pg_conf(ep);
            &&& sets(conf, 0, "max_wal_senders"@, "10"@)
            &&& sets(conf, 1, "wal_log_hints"@, "off"@)
            &&& sets(conf, 2, "max_replication_slots"@, "10"@)
            &&& sets(conf, 3, "hot_standby"@, "on"@)
            &&& sets(conf, 4, "shared_buffers"@, "1MB"@)
            &&& sets(conf, 5, "effective_io_concurrency"@, "2"@)
            &&& sets(conf, 6, "fsync"@, "off"@)
            &&& sets(conf, 7, "max_connections"@, "100"@)
            &&& sets(conf, 8, "wal_level"@, "logical"@)
            &&& sets(conf, 9, "wal_sender_timeout"@, "5s"@)
            &&& sets(conf, 10, "listen_addresses"@, dotted(ep.pg_address.ip))
            &&& sets(conf, 11, "port"@, decimal(ep.pg_address.port as nat))
            &&& sets(conf, 12, "wal_keep_size"@, "0"@)
            &&& sets(conf, 13, "restart_after_crash"@, "off"@)
            &&& sets(conf, 14, "shared_preload_libraries"@, "neon"@)
            &&& conf.len() > 15 && conf[15] == ConfEntryView::Line(""@)
        }),
{
}

/// Whether `parts` are the safekeepers in order, each as `localhost` and the port on which it
/// serves computes.
pub open spec fn lists_safekeepers(
    parts: Seq<Seq<char>>,
    safekeepers: Seq<SafekeeperConf>,
) -> bool {
    &&& parts.len() == safekeepers.len()
    &&& forall|i: int|
        0 <= i < parts.len() ==> #[trigger] parts[i] == "localhost:"@ + decimal(
            safekeepers[i].compute_port as nat,
        )
}

/// `localhost:` is the host followed by a colon.
proof fn lemma_localhost_colon()
    ensures
        "localhost:"@ == "localhost"@ + ":"@,
{
    reveal_strlit("localhost:");
    reveal_strlit("localhost");
    reveal_strlit(":");
    assert("localhost:"@ =~= "localhost"@ + ":"@);
}

/// A primary with safekeepers, be there one or many, waits for the walproposer and connects to
/// each of them, in order. It has no settings beyond these.
pub proof fn law_primary_connects_to_its_safekeepers(ep: EndpointView)
    requires
        ep.mode is Primary,
        ep.env.safekeepers.len() >= 1,
    ensures
        pg_conf(ep).len() == 20,
        sets(pg_conf(ep), 16, "max_replication_write_lag"@, "15MB"@),
        sets(pg_conf(ep), 17, "max_replication_flush_lag"@, "10GB"@),
        sets(pg_conf(ep), 18, "synchronous_standby_names"@, "walproposer"@),
        exists|parts: Seq<Seq<char>>| #[trigger]
            lists_safekeepers(parts, ep.env.safekeepers) && sets(
                pg_conf(ep),
                19,
                "neon.safekeepers"@,
                joined(parts, ","@),
            ),
{
    lemma_localhost_colon();
    let parts = ep.env.safekeepers.map_values(
        |sk: SafekeeperConf| host_port("localhost"@, sk.compute_port),
    );
    assert forall|i: int| 0 <= i < parts.len() implies #[trigger] parts[i] == "localhost:"@
        + decimal(ep.env.safekeepers[i].compute_port as nat) by {
        assert(parts[i] =~= "localhost:"@ + decimal(ep.env.safekeepers[i].compute_port as nat));
    }
    assert(lists_safekeepers(parts, ep.env.safekeepers));
}

/// A primary without safekeepers streams to the pageserver. It has no settings beyond these.
pub proof fn law_primary_without_safekeepers(ep: EndpointView)
    requires
        ep.mode is Primary,
        ep.env.safekeepers.len() == 0,
    ensures
        pg_conf(ep).len() == 20,
        sets(pg_conf(ep), 16, "max_replication_write_lag"@, "15MB"@),
        sets(pg_conf(ep), 17, "max_replication_flush_lag"@, "10GB"@),
        sets(pg_conf(ep), 18, "synchronous_commit"@, "remote_write"@),
        sets(pg_conf(ep), 19, "synchronous_standby_names"@, "pageserver"@),
{
}

/// A static endpoint recovers up to its position in the log and no further.
pub proof fn law_static_endpoint_stays_at_its_lsn(ep: EndpointView)
    requires
        ep.mode is Static,
    ensures
        pg_conf(ep).len() == 17,
        sets(pg_conf(ep), 16, "recovery_target_lsn"@, ep.mode->Static_0),
{
}

/// A replica follows its timeline through the safekeepers, each by its host and its port, in
/// order. It has the setting against prefetching exactly if its version knows it.
pub proof fn law_replica_follows_its_timeline(ep: EndpointView)
    requires
        ep.mode is Replica,
    ensures
        pg_conf(ep).len() == if ep.pg_version.0 >= 15 {
            20int
        } else {
            19
        },
        exists|hosts: Seq<Seq<char>>, ports: Seq<Seq<char>>|
            {
                &&& hosts.len() == ep.env.safekeepers.len()
                &&& ports.len() == ep.env.safekeepers.len()
                &&& forall|i: int| 0 <= i < hosts.len() ==> hosts[i] == "localhost"@
                &&& forall|i: int|
                    0 <= i < ports.len() ==> ports[i] == decimal(
                        ep.env.safekeepers[i].compute_port as nat,
                    )
                &&& #[trigger] sets(
                    pg_conf(ep),
                    16,
                    "primary_conninfo"@,
                    "host="@ + #[trigger] joined(hosts, ","@) + " port="@ + #[trigger] joined(
                        ports,
                        ","@,
                    ) + " options='-c timeline_id="@ + ep.timeline_id + " tenant_id="@
                        + ep.tenant_id + "' application_name=replica replication=true"@,
                )
            },
        sets(pg_conf(ep), 17, "primary_slot_name"@, "repl_"@ + ep.timeline_id + "_"@),
        sets(pg_conf(ep), 18, "hot_standby"@, "on"@),
        ep.pg_version.0 >= 15 ==> sets(pg_conf(ep), 19, "recovery_prefetch"@, "off"@),
{
    let hosts = ep.env.safekeepers.map_values(|sk: SafekeeperConf| "localhost"@);
    let ports = ep.env.safekeepers.map_values(
        |sk: SafekeeperConf| decimal(sk.compute_port as nat),
    );
    assert(sets(
        pg_conf(ep),
        16,
        "primary_conninfo"@,
        "host="@ + joined(hosts, ","@) + " port="@ + joined(ports, ","@)
            + " options='-c timeline_id="@ + ep.timeline_id + " tenant_id="@ + ep.tenant_id
            + "' application_name=replica replication=true"@,
    ));
}

/// Whether a configuration sets `name` to `value` anywhere.
pub open spec fn has_setting(
    conf: Seq<ConfEntryView>,
    name: Seq<char>,
    value: Seq<char>,
) -> bool {
    exists|i: int| #[trigger] sets(conf, i, name, value)
}

/// Where the setting of the standby names can be.
proof fn lemma_standby_names(ep: EndpointView, i: int, value: Seq<char>)
    requires
        sets(pg_conf(ep), i, "synchronous_standby_names"@, value),
    ensures
        ep.mode is Primary,
        ep.env.safekeepers.len() > 0 ==> value == "walproposer"@,
        ep.env.safekeepers.len() == 0 ==> value == "pageserver"@,
{
    reveal_strlit("synchronous_standby_names");
    reveal_strlit("max_wal_senders");
    reveal_strlit("wal_log_hints");
    reveal_strlit("max_replication_slots");
    reveal_strlit("hot_standby");
    reveal_strlit("shared_buffers");
    reveal_strlit("effective_io_concurrency");
    reveal_strlit("fsync");
    reveal_strlit("max_connections");
    reveal_strlit("wal_level");
    reveal_strlit("wal_sender_timeout");
    reveal_strlit("listen_addresses");
    reveal_strlit("port");
    reveal_strlit("wal_keep_size");
    reveal_strlit("restart_after_crash");
    reveal_strlit("shared_preload_libraries");
    reveal_strlit("max_replication_write_lag");
    reveal_strlit("max_replication_flush_lag");
    reveal_strlit("neon.safekeepers");
    reveal_strlit("synchronous_commit");
    reveal_strlit("recovery_target_lsn");
    reveal_strlit("primary_conninfo");
    reveal_strlit("primary_slot_name");
    reveal_strlit("recovery_prefetch");
    let name = "synchronous_standby_names"@;
    assert(name.len() == 25 && name[0] == 's');
    law_common_settings(ep);
    assert("max_wal_senders"@.len() == 15);
    assert("wal_log_hints"@.len() == 13);
    assert("max_replication_slots"@.len() == 21);
    assert("hot_standby"@.len() == 11);
    assert("shared_buffers"@.len() == 14);
    assert("effective_io_concurrency"@.len() == 24);
    assert("fsync"@.len() == 5);
    assert("max_connections"@.len() == 15);
    assert("wal_level"@.len() == 9);
    assert("wal_sender_timeout"@.len() == 18);
    assert("listen_addresses"@.len() == 16);
    assert("port"@.len() == 4);
    assert("wal_keep_size"@.len() == 13);
    assert("restart_after_crash"@.len() == 19);
    assert("shared_preload_libraries"@.len() == 24);
    assert("max_replication_write_lag"@[0] == 'm');
    assert("max_replication_flush_lag"@[0] == 'm');
    assert("neon.safekeepers"@.len() == 16);
    assert("synchronous_commit"@.len() == 18);
    assert("recovery_target_lsn"@.len() == 19);
    assert("primary_conninfo"@.len() == 16);
    assert("primary_slot_name"@.len() == 17);
    assert("recovery_prefetch"@.len() == 17);
    assert(i >= 16);
    if ep.mode is Primary {
        if ep.env.safekeepers.len() > 0 {
            law_primary_connects_to_its_safekeepers(ep);
        } else {
            law_primary_without_safekeepers(ep);
        }
    } else if ep.mode is Static {
        law_static_endpoint_stays_at_its_lsn(ep);
    } else {
        law_replica_follows_its_timeline(ep);
    }
}

/// Only a primary whose environment has no safekeepers streams to the pageserver, and exactly the
/// primaries whose environment has some wait for the walproposer.
pub proof fn law_who_streams_to_the_pageserver(ep: EndpointView)
    ensures
        has_setting(pg_conf(ep), "synchronous_standby_names"@, "pageserver"@) <==> ep.mode
            is Primary && ep.env.safekeepers.len() == 0,
        has_setting(pg_conf(ep), "synchronous_standby_names"@, "walproposer"@) <==> ep.mode
            is Primary && ep.env.safekeepers.len() > 0,
{
    reveal_strlit("pageserver");
    reveal_strlit("walproposer");
    assert("pageserver"@.len() == 10 && "walproposer"@.len() == 11);
    let name = "synchronous_standby_names"@;
    if has_setting(pg_conf(ep), name, "pageserver"@) {
        let i = choose|i: int| #[trigger] sets(pg_conf(ep), i, name, "pageserver"@);
        lemma_standby_names(ep, i, "pageserver"@);
    }
    if has_setting(pg_conf(ep), name, "walproposer"@) {
        let i = choose|i: int| #[trigger] sets(pg_conf(ep), i, name, "walproposer"@);
        lemma_standby_names(ep, i, "walproposer"@);
    }
    if ep.mode is Primary {
        if ep.env.safekeepers.len() > 0 {
            law_primary_connects_to_its_safekeepers(ep);
        } else {
            law_primary_without_safekeepers(ep);
        }
    }
}

// ---------------------------------------------------------------------------------------------
// Safekeepers and pageservers
// ---------------------------------------------------------------------------------------------

/// A safekeeper is found by its id, the first one that has it, and none is found only if none has
/// the id.
pub proof fn law_first_safekeeper_is_found(safekeepers: Seq<SafekeeperConf>, id: NodeId)
    ensures
        match find_safekeeper(safekeepers, id) {
            Some(sk) => exists|i: int|
                0 <= i < safekeepers.len() && #[trigger] safekeepers[i] == sk && sk.id == id && (
                forall|j: int| 0 <= j < i ==> (#[trigger] safekeepers[j]).id != id),
            None => forall|j: int|
                0 <= j < safekeepers.len() ==> (#[trigger] safekeepers[j]).id != id,
        },
    decreases safekeepers.len(),
{
    if safekeepers.len() > 0 {
        if safekeepers[0].id == id {
            assert(safekeepers[0] == find_safekeeper(safekeepers, id)->0);
        } else {
            let rest = safekeepers.skip(1);
            law_first_safekeeper_is_found(rest, id);
            match find_safekeeper(rest, id) {
                Some(sk) => {
                    let i = choose|i: int|
                        0 <= i < rest.len() && #[trigger] rest[i] == sk && sk.id == id && (forall|
                            j: int,
                        |
                            0 <= j < i ==> (#[trigger] rest[j]).id != id);
                    assert(safekeepers[i + 1] == sk);
                    assert forall|j: int| 0 <= j < i + 1 implies (
                    #[trigger] safekeepers[j]).id != id by {
                        if j > 0 {
                            assert(rest[j - 1] == safekeepers[j]);
                        }
                    }
                },
                None => {
                    assert forall|j: int| 0 <= j < safekeepers.len() implies (
                    #[trigger] safekeepers[j]).id != id by {
                        if j > 0 {
                            assert(rest[j - 1] == safekeepers[j]);
                        }
                    }
                },
            }
        }
    }
}

/// Whether `list` has for each id, in order, the loopback address and the port of the safekeeper
/// with that id.
pub open spec fn reaches(
    list: Seq<Seq<char>>,
    safekeepers: Seq<SafekeeperConf>,
    ids: Seq<NodeId>,
) -> bool {
    &&& list.len() == ids.len()
    &&& forall|i: int|
        0 <= i < ids.len() ==> (find_safekeeper(safekeepers, #[trigger] ids[i]) matches Some(sk)
            && list[i] == "127.0.0.1:"@ + decimal(sk.compute_port as nat))
}

/// A primary is given an address for each of its safekeepers, and any other endpoint none. It
/// fails exactly if a primary is given an id that no safekeeper has.
pub proof fn law_safekeepers_are_reached(ep: EndpointView, ids: Seq<NodeId>)
    ensures
        match safekeeper_connstrings(ep, ids) {
            Ok(list) => if ep.mode == ComputeModeView::Primary {
                reaches(list, ep.env.safekeepers, ids)
            } else {
                list.len() == 0
            },
            Err(error) => ep.mode == ComputeModeView::Primary && exists|i: int| #[trigger]
                is_first_unknown(ep.env.safekeepers, ids, i) && error == (
                EndpointErrorView::SafekeeperMissing { id: ids[i] }),
        },
{
    law_safekeepers_keep_their_order(ep, ids);
    reveal_strlit("127.0.0.1:");
    reveal_strlit("127.0.0.1");
    reveal_strlit(":");
    assert("127.0.0.1:"@ =~= "127.0.0.1"@ + ":"@);
    if safekeeper_connstrings(ep, ids) is Ok && ep.mode is Primary {
        let list = safekeeper_connstrings(ep, ids)->Ok_0;
        assert forall|i: int| 0 <= i < ids.len() implies (find_safekeeper(
            ep.env.safekeepers,
            #[trigger] ids[i],
        ) matches Some(sk) && list[i] == "127.0.0.1:"@ + decimal(sk.compute_port as nat)) by {
            let sk = find_safekeeper(ep.env.safekeepers, ids[i])->0;
            assert(list[i] =~= "127.0.0.1:"@ + decimal(sk.compute_port as nat));
        }
    }
}

/// How many shards a tenant has to be reached on.
pub open spec fn shards_of(count: ShardCount) -> int {
    if count.0 == 0 {
        1
    } else {
        count.0 as int
    }
}

/// The key of a shard in the connection info.
pub open spec fn shard_key(info: ConnectionInfoView, n: int) -> ShardIndex {
    ShardIndex { shard_number: ShardNumber(n as u8), shard_count: info.shard_count }
}

/// Whether a shard's first pageserver speaks libpq.
pub open spec fn speaks_libpq(info: ConnectionInfoView, n: int) -> bool {
    &&& info.shards.contains_key(shard_key(info, n))
    &&& info.shards[shard_key(info, n)].len() > 0
    &&& info.shards[shard_key(info, n)][0].libpq_url is Some
}

/// If the first pageserver of every shard speaks libpq, their URLs, by shard number and with
/// commas between them, are the connection string.
pub proof fn law_connstring_of_all_shards(info: ConnectionInfoView, urls: Seq<Seq<char>>)
    requires
        urls.len() == shards_of(info.shard_count),
        forall|n: int|
            0 <= n < urls.len() ==> speaks_libpq(info, n) && #[trigger] urls[n]
                == info.shards[shard_key(info, n)][0].libpq_url->0,
    ensures
        info.connstring() == Ok::<_, EndpointErrorView>(Some(joined(urls, ","@))),
{
    let count = shards_of(info.shard_count);
    assert forall|n: int| 0 <= n < count implies #[trigger] info.shard_url(n) == ShardUrl::Url(
        urls[n],
    ) by {
        assert(urls[n] == info.shards[shard_key(info, n)][0].libpq_url->0);
        assert(info.index(n) == shard_key(info, n));
    }
    lemma_no_gap(info, 0, count);
    assert(info.urls(count) =~= urls);
}

/// The first shard whose first pageserver does not speak libpq decides: it is an error if it is
/// missing or has no pageserver, and else there is no connection string.
pub proof fn law_first_gap_decides(info: ConnectionInfoView, n: int)
    requires
        0 <= n < shards_of(info.shard_count),
        !speaks_libpq(info, n),
        forall|k: int| 0 <= k < n ==> #[trigger] speaks_libpq(info, k),
    ensures
        info.connstring() == if !info.shards.contains_key(shard_key(info, n)) {
            Err(EndpointErrorView::ShardMissing { shard: shard_key(info, n) })
        } else if info.shards[shard_key(info, n)].len() == 0 {
            Err(EndpointErrorView::ShardWithoutPageserver)
        } else {
            Ok(None::<Seq<char>>)
        },
{
    assert forall|k: int| 0 <= k < n implies #[trigger] info.shard_url(k) is Url by {
        assert(speaks_libpq(info, k));
        assert(info.index(k) == shard_key(info, k));
    }
    assert(info.index(n) == shard_key(info, n));
    lemma_no_gap(info, 0, n);
}

/// The URL of a pageserver: the scheme, a user that does not matter, the host and the port.
pub open spec fn pageserver_url(scheme: Seq<char>, host: Seq<char>, port: u16) -> Seq<char> {
    scheme + "://no_user@"@ + host + ":"@ + decimal(port as nat)
}

/// The schemes of pageserver URLs.
proof fn lemma_schemes()
    ensures
        "postgres://no_user@"@ == "postgres"@ + "://no_user@"@,
        "grpc://no_user@"@ == "grpc"@ + "://no_user@"@,
{
    reveal_strlit("postgres://no_user@");
    reveal_strlit("grpc://no_user@");
    reveal_strlit("postgres");
    reveal_strlit("grpc");
    reveal_strlit("://no_user@");
    assert("postgres://no_user@"@ =~= "postgres"@ + "://no_user@"@);
    assert("grpc://no_user@"@ =~= "grpc"@ + "://no_user@"@);
}

/// A tenant on a chosen pageserver is not sharded: its only shard has that pageserver, by its id
/// and its addresses, with the default ports where none are given.
pub proof fn law_local_pageserver(conf: PageServerConfView, default_grpc_port: u16)
    ensures
        match local_conn_info(conf, default_grpc_port) {
            Ok(info) => {
                let key = ShardIndex { shard_number: ShardNumber(0), shard_count: ShardCount(0) };
                &&& info.shard_count == ShardCount(0)
                &&& info.stripe_size is None
                &&& info.prefer_protocol == PageserverProtocol::Libpq
                &&& forall|k: ShardIndex| #[trigger] info.shards.contains_key(k) <==> k == key
                &&& info.shards[key].len() == 1
                &&& info.shards[key][0].id == Some(conf.id)
                &&& conf.listen_pg_addr matches Ok(pg) && info.shards[key][0].libpq_url == Some(
                    pageserver_url(
                        "postgres"@,
                        pg.host,
                        if pg.port is Some {
                            pg.port->0
                        } else {
                            5432
                        },
                    ),
                )
                &&& match conf.listen_grpc_addr {
                    None => info.shards[key][0].grpc_url is None,
                    Some(Ok(grpc)) => info.shards[key][0].grpc_url == Some(
                        pageserver_url(
                            "grpc"@,
                            grpc.host,
                            if grpc.port is Some {
                                grpc.port->0
                            } else {
                                default_grpc_port
                            },
                        ),
                    ),
                    Some(Err(_)) => false,
                }
            },
            Err(error) => match (conf.listen_pg_addr, conf.listen_grpc_addr) {
                (Err(cause), _) => error == (EndpointErrorView::BadAddress { cause }),
                (Ok(_), Some(Err(cause))) => error == (EndpointErrorView::BadAddress { cause }),
                _ => false,
            },
        },
{
    lemma_schemes();
    match local_conn_info(conf, default_grpc_port) {
        Ok(info) => {
            let key = ShardIndex { shard_number: ShardNumber(0), shard_count: ShardCount(0) };
            let pg = conf.listen_pg_addr->Ok_0;
            let pg_port = if pg.port is Some {
                pg.port->0
            } else {
                5432
            };
            assert(info.shards[key][0].libpq_url->0 =~= pageserver_url(
                "postgres"@,
                pg.host,
                pg_port,
            ));
            if let Some(Ok(grpc)) = conf.listen_grpc_addr {
                let grpc_port = if grpc.port is Some {
                    grpc.port->0
                } else {
                    default_grpc_port
                };
                assert(info.shards[key][0].grpc_url->0 =~= pageserver_url(
                    "grpc"@,
                    grpc.host,
                    grpc_port,
                ));
            }
        },
        Err(_) => {},
    }
}

/// A located shard is reached at the node, the address and the ports that were told for it.
pub proof fn law_located_shard_is_reached(shard: LocatedShardView)
    ensures
        ({
            let told = shard.connection();
            &&& told.id == Some(shard.node_id)
            &&& told.libpq_url == Some(
                pageserver_url("postgres"@, shard.listen_pg_addr, shard.listen_pg_port),
            )
            &&& shard.listen_grpc_addr is None ==> told.grpc_url is None
            &&& shard.listen_grpc_addr matches Some(host) ==> told.grpc_url == Some(
                pageserver_url("grpc"@, host, shard.listen_grpc_port->0),
            )
        }),
{
    lemma_schemes();
    let told = shard.connection();
    assert(told.libpq_url->0 =~= pageserver_url(
        "postgres"@,
        shard.listen_pg_addr,
        shard.listen_pg_port,
    ));
    if shard.listen_grpc_addr is Some {
        assert(told.grpc_url->0 =~= pageserver_url(
            "grpc"@,
            shard.listen_grpc_addr->0,
            shard.listen_grpc_port->0,
        ));
    }
}

/// A located tenant has as many shards as was told, and the stripe size that was told unless it
/// is not sharded. Each shard that was told has one pageserver, that of its last mention, and no
/// other shard has any.
pub proof fn law_located_tenant(response: TenantLocateView)
    ensures
        ({
            let info = response.conn_info();
            &&& info.shard_count == response.shard_params.count
            &&& info.stripe_size == if response.shard_params.count == ShardCount(0) {
                None
            } else {
                Some(response.shard_params.stripe_size)
            }
            &&& info.prefer_protocol == PageserverProtocol::Libpq
            &&& forall|key: ShardIndex| #[trigger]
                info.shards.contains_key(key) ==> exists|i: int|
                    0 <= i < response.shards.len() && (#[trigger] response.shards[i]).index == key
            &&& forall|i: int|
                0 <= i < response.shards.len() && (forall|j: int|
                    i < j < response.shards.len() ==> (#[trigger] response.shards[j]).index
                        != response.shards[i].index) ==> info.shards.contains_key(
                    (#[trigger] response.shards[i]).index,
                ) && info.shards[response.shards[i].index] == seq![
                    response.shards[i].connection(),
                ]
        }),
{
    lemma_located(response.shards);
}

/// What a list of located shards amounts to.
proof fn lemma_located(shards: Seq<LocatedShardView>)
    ensures
        forall|key: ShardIndex| #[trigger]
            located(shards).contains_key(key) ==> exists|i: int|
                0 <= i < shards.len() && (#[trigger] shards[i]).index == key,
        forall|i: int|
            0 <= i < shards.len() && (forall|j: int|
                i < j < shards.len() ==> (#[trigger] shards[j]).index != shards[i].index)
                ==> located(shards).contains_key((#[trigger] shards[i]).index) && located(
                shards,
            )[shards[i].index] == seq![shards[i].connection()],
    decreases shards.len(),
{
    if shards.len() > 0 {
        let before = shards.drop_last();
        let last = shards.len() - 1;
        lemma_located(before);
        assert(shards[last] == shards.last());
        assert(forall|i: int| 0 <= i < last ==> before[i] == #[trigger] shards[i]);
        assert forall|key: ShardIndex| #[trigger] located(shards).contains_key(key) implies exists|
            i: int,
        |
            0 <= i < shards.len() && (#[trigger] shards[i]).index == key by {
            if key == shards[last].index {
            } else {
                assert(located(before).contains_key(key));
                let i = choose|i: int| 0 <= i < before.len() && (#[trigger] before[i]).index == key;
                assert(shards[i].index == key);
            }
        }
        assert forall|i: int|
            0 <= i < shards.len() && (forall|j: int|
                i < j < shards.len() ==> (#[trigger] shards[j]).index != shards[i].index)
            implies located(shards).contains_key((#[trigger] shards[i]).index) && located(
            shards,
        )[shards[i].index] == seq![shards[i].connection()] by {
            if i < last {
                assert(shards[last].index != shards[i].index);
                assert forall|j: int| i < j < before.len() implies (
                #[trigger] before[j]).index != before[i].index by {
                    assert(shards[j].index != shards[i].index);
                }
                assert(located(before).contains_key(before[i].index));
            }
        }
    }
}

/// Whether the connection info names some shard.
pub open spec fn names_a_shard(info: ConnectionInfoView) -> bool {
    exists|key: ShardIndex| info.shards.contains_key(key)
}

// ---------------------------------------------------------------------------------------------
// Keys
// ---------------------------------------------------------------------------------------------

/// The key set of a public key holds that key and no other, named by its digest, for verifying
/// EdDSA signatures on the curve Ed25519. What does not decode as a public key is refused with
/// what the decoder says.
pub proof fn law_key_set(contents: Seq<u8>)
    ensures
        match spki_public_key(contents) {
            Ok(key) => jwks_of(contents) matches Ok(set) && {
                &&& set.len() == 1
                &&& set[0].key_id == Some(base64_url(sha256(key)))
                &&& set[0].algorithm == (AlgorithmParametersView::OctetKeyPair {
                    curve: NameView::Known,
                    x: base64_url(key),
                })
                &&& set[0].public_key_use == Some(NameView::Known)
                &&& set[0].key_operations matches Some(operations) && operations.len() == 1
                    && operations[0] == NameView::Known
                &&& set[0].key_algorithm == Some(NameView::Known)
                &&& set[0].x509_url is None
                &&& set[0].x509_chain is None
                &&& set[0].x509_sha1_fingerprint is None
                &&& set[0].x509_sha256_fingerprint is None
            },
            Err(cause) => jwks_of(contents) == Err::<Seq<JwkView>, _>(
                EndpointErrorView::InvalidPublicKey { cause },
            ),
        },
{
}

// ---------------------------------------------------------------------------------------------
// Commands
// ---------------------------------------------------------------------------------------------

/// Whether the `i`-th argument of a command is this text.
pub open spec fn says(cmd: CommandLineView, i: int, text: Seq<char>) -> bool {
    0 <= i < cmd.args.len() && cmd.args[i] == CommandArgView::Text(text)
}

/// Whether the `i`-th argument of a command is this path.
pub open spec fn points_to(cmd: CommandLineView, i: int, path: ChildPathView) -> bool {
    0 <= i < cmd.args.len() && cmd.args[i] == CommandArgView::Path(path)
}

/// `pg_ctl` is run on the endpoint's data directory, waits, and is then given the arguments as
/// they are. It sees the library path, the token if there is one, and nothing else of the
/// environment.
pub proof fn law_pg_ctl(
    ep: EndpointView,
    args: Seq<Seq<char>>,
    auth_token: Option<Seq<char>>,
    pg_bin_dir: Seq<char>,
    pg_lib_dir: Seq<char>,
)
    ensures
        ({
            let cmd = pg_ctl_command(ep, args, auth_token, pg_bin_dir, pg_lib_dir);
            &&& cmd.program.base == pg_bin_dir && cmd.program.parts == seq!["pg_ctl"@]
            &&& cmd.args.len() == 3 + args.len()
            &&& says(cmd, 0, "-D"@)
            &&& points_to(cmd, 1, ep.pgdata())
            &&& says(cmd, 2, "-w"@)
            &&& forall|i: int| 0 <= i < args.len() ==> says(cmd, 3 + i, #[trigger] args[i])
            &&& cmd.env_clear
            &&& cmd.envs.len() == 2 + if auth_token is Some {
                1int
            } else {
                0
            }
            &&& cmd.envs[0] == ("LD_LIBRARY_PATH"@, pg_lib_dir)
            &&& cmd.envs[1] == ("DYLD_LIBRARY_PATH"@, pg_lib_dir)
            &&& auth_token matches Some(token) ==> cmd.envs[2] == ("NEON_AUTH_TOKEN"@, token)
        }),
{
    let cmd = pg_ctl_command(ep, args, auth_token, pg_bin_dir, pg_lib_dir);
    assert(cmd.program.parts =~= seq!["pg_ctl"@]);
    assert forall|i: int| 0 <= i < args.len() implies says(cmd, 3 + i, #[trigger] args[i]) by {
        assert(cmd.args[3 + i] == CommandArgView::Text(args[i]));
    }
}

/// `compute_ctl` is launched with the ports, the data directory, the connection string, the
/// configuration file, the Postgres program and the id of the endpoint. It is told where remote
/// extensions are, that this is a development setup and which role is privileged exactly if that
/// was asked for. It sees the environment of its parent.
pub proof fn law_launch_command(ep: EndpointView, args: StartArgsView, pg_bin_dir: Seq<char>)
    ensures
        ({
            let cmd = start::launch_command(ep, args, pg_bin_dir);
            let url = if args.remote_ext_base_url is Some {
                2int
            } else {
                0
            };
            let dev = if args.dev {
                1int
            } else {
                0
            };
            let role = if ep.privileged_role_name is Some {
                2int
            } else {
                0
            };
            &&& cmd.program.base == ep.env.neon_distrib_dir
            &&& cmd.program.parts == seq!["compute_ctl"@]
            &&& !cmd.env_clear && cmd.envs.len() == 0
            &&& cmd.args.len() == 14 + url + dev + role
            &&& says(cmd, 0, "--external-http-port"@)
            &&& says(cmd, 1, decimal(ep.external_http_address.port as nat))
            &&& says(cmd, 2, "--internal-http-port"@)
            &&& says(cmd, 3, decimal(ep.internal_http_address.port as nat))
            &&& says(cmd, 4, "--pgdata"@)
            &&& points_to(cmd, 5, ep.pgdata())
            &&& says(cmd, 6, "--connstr"@)
            &&& says(cmd, 7, ep.connstr("cloud_admin"@, "postgres"@))
            &&& says(cmd, 8, "--config"@)
            &&& points_to(cmd, 9, ep.file(EndpointFile::ConfigJson))
            &&& says(cmd, 10, "--pgbin"@)
            &&& points_to(
                cmd,
                11,
                ChildPathView { base: pg_bin_dir, parts: seq!["postgres"@] },
            )
            &&& says(cmd, 12, "--compute-id"@)
            &&& says(cmd, 13, ep.endpoint_id)
            &&& args.remote_ext_base_url matches Some(base) ==> says(
                cmd,
                14,
                "--remote-ext-base-url"@,
            ) && says(cmd, 15, base)
            &&& args.dev ==> says(cmd, 14 + url, "--dev"@)
            &&& ep.privileged_role_name matches Some(name) ==> says(
                cmd,
                14 + url + dev,
                "--privileged-role-name"@,
            ) && says(cmd, 15 + url + dev, name)
        }),
{
    let cmd = start::launch_command(ep, args, pg_bin_dir);
    assert(cmd.program.parts =~= seq!["compute_ctl"@]);
    assert(cmd.args[11] == CommandArgView::Path(
        ChildPathView { base: pg_bin_dir, parts: Seq::<Seq<char>>::empty().push("postgres"@) },
    ));
    assert(Seq::<Seq<char>>::empty().push("postgres"@) =~= seq!["postgres"@]);
}

/// A process id reads as the number that its pattern of 32 bits is with a sign.
pub proof fn law_signed_pid(pid: u32)
    ensures
        i32::MIN <= as_signed(pid) <= i32::MAX,
        as_signed(pid) == pid || as_signed(pid) + 0x1_0000_0000 == pid,
{
}

/// What a pid file says: the process whose numeral it holds, or an error that says what is wrong
/// with it.
pub proof fn law_pid_file(text: Seq<char>)
    ensures
        match pid_of(text) {
            Ok(pid) => numeral_u32(text) matches Some(n) && (pid == n || pid + 0x1_0000_0000 == n)
                && i32::MIN <= pid <= i32::MAX,
            Err(error) => numeral_u32(text) is None && error == (EndpointErrorView::InvalidPid {
                cause: u32_error_text(text),
            }),
        },
{
}

// ---------------------------------------------------------------------------------------------
// Requests and answers
// ---------------------------------------------------------------------------------------------

/// A token for an admin names the audience and no endpoint. Any other names the endpoint and no
/// audience.
pub proof fn law_claims(
    ep: EndpointView,
    scope: Option<ComputeClaimsScope>,
    compute_audience: Seq<char>,
)
    ensures
        ({
            let made = claims(ep, scope, compute_audience);
            &&& made.scope == scope
            &&& scope is Some ==> made.compute_id is None && (made.audience matches Some(list)
                && list.len() == 1 && list[0] == compute_audience)
            &&& scope is None ==> made.compute_id == Some(ep.endpoint_id) && made.audience is None
        }),
{
}

/// Each request goes to its own path of the API that serves it, with a token that is good for the
/// endpoint where the API asks for one, and waits as long as it may.
pub proof fn law_requests(ep: EndpointView, compute_audience: Seq<char>)
    ensures
        ({
            let r = status_request(ep);
            &&& r.method == HttpMethod::Get
            &&& r.url == "http://"@ + at(ep.external_http_address) + "/status"@
            &&& r.claims == Some(claims(ep, None, compute_audience))
            &&& r.timeout_seconds is None
        }),
        ({
            let r = configure_request(ep);
            &&& r.method == HttpMethod::Post
            &&& r.url == "http://"@ + at(ep.external_http_address) + "/configure"@
            &&& r.claims == Some(claims(ep, None, compute_audience))
            &&& r.timeout_seconds == Some(120u64)
        }),
        ({
            let r = refresh_request(ep);
            &&& r.method == HttpMethod::Post
            &&& r.url == "http://"@ + at(ep.internal_http_address) + "/refresh_configuration"@
            &&& r.claims is None
            &&& r.timeout_seconds == Some(30u64)
        }),
        ({
            let r = terminate_request(ep, compute_audience);
            &&& r.method == HttpMethod::Post
            &&& r.url == "http://"@ + at(ep.external_http_address) + "/terminate?mode=immediate"@
            &&& r.claims == Some(claims(ep, Some(ComputeClaimsScope::Admin), compute_audience))
            &&& r.timeout_seconds is None
        }),
{
}

/// An answer is an error exactly if its status is of the four or the five hundreds.
pub proof fn law_error_statuses(status: u16)
    ensures
        is_error(status) <==> status / 100 == 4 || status / 100 == 5,
{
}

/// An error answer is reported with its body if that could be read, and else with its status and
/// where it came from.
pub proof fn law_error_answers(status: u16, url: Seq<char>, body: Option<Seq<char>>)
    ensures
        body matches Some(text) ==> error_text(status, url, body) == "Error: "@ + text,
        body is None ==> error_text(status, url, body) == "Http error ("@ + decimal(status as nat)
            + ") at "@ + url + "."@,
{
}

/// Reconfiguring takes over what is given, whatever was there before: the connection info and its
/// stripe size, the addresses of the safekeepers and their generation, and the Postgres settings.
/// Nothing else changes.
pub proof fn law_reconfigure_takes_what_is_given(
    ep: EndpointView,
    spec: ComputeSpecView,
    conf: Seq<char>,
    info: Option<ConnectionInfoView>,
    safekeepers: Option<Seq<NodeId>>,
    generation: Option<SafekeeperGeneration>,
)
    ensures
        reconfigured(ep, spec, conf, info, safekeepers, generation) matches Ok(new) ==> {
            &&& info matches Some(given) ==> new.pageserver_connection_info == Some(given)
                && new.shard_stripe_size == given.stripe_size && names_a_shard(given)
            &&& info is None ==> new.pageserver_connection_info == spec.pageserver_connection_info
                && new.shard_stripe_size == spec.shard_stripe_size
            &&& safekeepers matches Some(ids) ==> if ep.mode is Primary {
                reaches(new.safekeeper_connstrings, ep.env.safekeepers, ids)
            } else {
                new.safekeeper_connstrings.len() == 0
            }
            &&& safekeepers is Some && generation is Some ==> new.safekeepers_generation == Some(
                (generation->0).0,
            )
            &&& safekeepers is None || generation is None ==> new.safekeepers_generation
                == spec.safekeepers_generation
            &&& safekeepers is None ==> new.safekeeper_connstrings == spec.safekeeper_connstrings
            &&& new.cluster.postgresql_conf == Some(conf)
            &&& new.cluster == (ClusterView { postgresql_conf: Some(conf), ..spec.cluster })
            &&& new == (ComputeSpecView {
                cluster: new.cluster,
                pageserver_connection_info: new.pageserver_connection_info,
                shard_stripe_size: new.shard_stripe_size,
                safekeeper_connstrings: new.safekeeper_connstrings,
                safekeepers_generation: new.safekeepers_generation,
                ..spec
            })
        },
{
    if let Some(ids) = safekeepers {
        law_safekeepers_are_reached(ep, ids);
    }
}

/// Reconfiguring fails exactly if connection info without shards is given, or else if a primary
/// is given a safekeeper that there is not.
pub proof fn law_when_reconfigure_fails(
    ep: EndpointView,
    spec: ComputeSpecView,
    conf: Seq<char>,
    info: Option<ConnectionInfoView>,
    safekeepers: Option<Seq<NodeId>>,
    generation: Option<SafekeeperGeneration>,
)
    ensures
        ({
            let r = reconfigured(ep, spec, conf, info, safekeepers, generation);
            &&& info is Some && !names_a_shard(info->0) ==> r == Err::<ComputeSpecView, _>(
                EndpointErrorView::NoPageservers,
            )
            &&& (info is None || names_a_shard(info->0)) && r is Err ==> safekeepers is Some
                && ep.mode is Primary && exists|i: int| #[trigger]
                is_first_unknown(ep.env.safekeepers, safekeepers->0, i) && r == Err::<
                    ComputeSpecView,
                    _,
                >(EndpointErrorView::SafekeeperMissing { id: safekeepers->0[i] })
            &&& (info is None || names_a_shard(info->0)) && (safekeepers is None || !(ep.mode
                is Primary) || forall|i: int|
                0 <= i < safekeepers->0.len() ==> find_safekeeper(
                    ep.env.safekeepers,
                    #[trigger] safekeepers->0[i],
                ) is Some) ==> r is Ok
        }),
{
    if let Some(ids) = safekeepers {
        law_safekeepers_are_reached(ep, ids);
    }
}

/// What each error says.
pub proof fn law_error_messages(
    tenant_id: Seq<char>,
    timeline_id: Seq<char>,
    endpoint_id: Seq<char>,
    id: NodeId,
    shard: ShardIndex,
    status: ComputeStatus,
    text: Seq<char>,
    stdout: Seq<char>,
    stderr: Seq<char>,
    shard_text: Seq<char>,
    timeout_text: Seq<char>,
)
    ensures
        EndpointErrorView::AlreadyRunning.message(shard_text, timeout_text)
            == "The endpoint is already running"@,
        (EndpointErrorView::DuplicatePrimary { tenant_id, timeline_id, endpoint_id }).message(
            shard_text,
            timeout_text,
        ) == "attempting to create a duplicate primary endpoint on tenant "@ + tenant_id
            + ", timeline "@ + timeline_id + ": endpoint "@ + debug_quoted(endpoint_id)
            + " exists already. please don't do this, it is not supported."@,
        (EndpointErrorView::SafekeeperMissing { id }).message(shard_text, timeout_text)
            == "safekeeper "@ + decimal(id.0 as nat) + " does not exist"@,
        (EndpointErrorView::ShardMissing { shard }).message(shard_text, timeout_text) == "shard "@
            + shard_text + " not found in pageserver_connection_info"@,
        EndpointErrorView::ShardWithoutPageserver.message(shard_text, timeout_text)
            == "must have at least one pageserver"@,
        EndpointErrorView::NoPageservers.message(shard_text, timeout_text)
            == "no pageservers provided"@,
        EndpointErrorView::InitTimedOut.message(shard_text, timeout_text)
            == "compute startup timed out "@ + timeout_text + "; still in Init state"@,
        (EndpointErrorView::ConnectTimedOut { cause: text }).message(shard_text, timeout_text)
            == "timed out "@ + timeout_text + " waiting to connect to compute_ctl HTTP"@,
        (EndpointErrorView::StartupFailed { reason: Some(text) }).message(shard_text, timeout_text)
            == "compute startup failed: "@ + text,
        (EndpointErrorView::StartupFailed { reason: None }).message(shard_text, timeout_text)
            == "compute startup failed: "@ + "<no error from compute_ctl>"@,
        (EndpointErrorView::UnexpectedStatus { status }).message(shard_text, timeout_text)
            == "unexpected compute status: "@ + status.spelled(),
        (EndpointErrorView::PgCtlFailed { exit_status: text, stdout, stderr }).message(
            shard_text,
            timeout_text,
        ) == "pg_ctl failed, exit code: "@ + text + ", stdout: "@ + stdout + ", stderr: "@ + stderr,
        (EndpointErrorView::NotADirectory { path: text }).message(shard_text, timeout_text)
            == "Endpoint::from_dir_entry failed: '"@ + text + "' is not a directory"@,
        (EndpointErrorView::InvalidPublicKey { cause: text }).message(shard_text, timeout_text)
            == text,
        (EndpointErrorView::NotUtf8 { cause: text }).message(shard_text, timeout_text) == text,
        (EndpointErrorView::InvalidPid { cause: text }).message(shard_text, timeout_text) == text,
        (EndpointErrorView::BadAddress { cause: text }).message(shard_text, timeout_text) == text,
        (EndpointErrorView::Http { message: text }).message(shard_text, timeout_text) == text,
        (EndpointErrorView::Vanished { cause: text }).message(shard_text, timeout_text) == text,
        (EndpointErrorView::Io { cause: text }).message(shard_text, timeout_text) == text,
{
}

// ---------------------------------------------------------------------------------------------
// Starting
// ---------------------------------------------------------------------------------------------

/// Whether `text` is what a settings file holds: what its bytes are the UTF-8 of, or nothing if
/// there is no such file.
pub open spec fn is_content(read: FileReadView, text: Seq<char>) -> bool {
    match read {
        FileReadView::Content(bytes) => encode_utf8(text) == bytes,
        FileReadView::NotFound => text.len() == 0,
        FileReadView::Failed(_) => false,
    }
}

/// The specification that a start writes has, field by field, what the endpoint and the arguments
/// have: a replica is started as a replica, a static endpoint at its position in the log, a
/// primary as a primary.
pub proof fn law_written_specification(
    ep: EndpointView,
    args: StartArgsView,
    events: Seq<StartEventView>,
)
    requires
        start::is_history(ep, args, events),
        start::started(ep, args, events) is WritingConfig,
    ensures
        start::started(ep, args, events)->config.compute_ctl_config == ep.compute_ctl_config,
        start::started(ep, args, events)->config.spec matches Some(spec) && {
            &&& spec.mode == ep.mode
            &&& spec.tenant_id == Some(ep.tenant_id)
            &&& spec.timeline_id == Some(ep.timeline_id)
            &&& spec.endpoint_id == Some(ep.endpoint_id)
            &&& spec.skip_pg_catalog_updates == ep.skip_pg_catalog_updates
            &&& spec.features == ep.features
            &&& spec.reconfigure_concurrency == ep.reconfigure_concurrency
            &&& spec.drop_subscriptions_before_start == ep.drop_subscriptions_before_start
            &&& spec.pageserver_connection_info == Some(args.pageserver_conninfo)
            &&& spec.shard_stripe_size == args.pageserver_conninfo.stripe_size
            &&& args.pageserver_conninfo.connstring() == Ok::<_, EndpointErrorView>(
                spec.pageserver_connstring,
            )
            &&& ep.mode == ComputeModeView::Primary ==> reaches(
                spec.safekeeper_connstrings,
                ep.env.safekeepers,
                args.safekeepers,
            )
            &&& ep.mode != ComputeModeView::Primary ==> spec.safekeeper_connstrings.len() == 0
            &&& args.safekeepers_generation matches Some(generation)
                ==> spec.safekeepers_generation == Some(generation.0)
            &&& args.safekeepers_generation is None ==> spec.safekeepers_generation is None
            &&& spec.storage_auth_token == args.auth_token
            &&& spec.endpoint_storage_addr == Some(args.endpoint_storage_addr)
            &&& spec.endpoint_storage_token == Some(args.endpoint_storage_token)
            &&& spec.autoprewarm == args.autoprewarm
            &&& spec.offload_lfc_interval_seconds == args.offload_lfc_interval_seconds
            &&& events[3] == (StartEventView::ExtensionsRead {
                remote_extensions: spec.remote_extensions,
            })
            &&& spec.audit_log_level == ComputeAuditView::Disabled
            &&& spec.suspend_timeout_seconds == -1
            &&& spec.operation_uuid is None
            &&& spec.swap_size_bytes is None
            &&& spec.disk_quota_bytes is None
            &&& spec.disable_lfc_resizing is None
            &&& spec.delta_operations is None
            &&& spec.project_id is None
            &&& spec.branch_id is None
            &&& spec.pgbouncer_settings is None
            &&& spec.local_proxy_config is None
            &&& spec.logs_export_host is None
            &&& spec.databricks_settings is None
            &&& spec.cluster.postgresql_conf matches Some(conf) && events[1] is ConfRead
                && is_content(events[1]->read, conf)
        },
{
    start::law_configuration_is_what_was_read(ep, args, events);
    law_safekeepers_are_reached(ep, args.safekeepers);
    if let FileReadView::Content(bytes) = events[1]->read {
        vstd::utf8::decode_utf8_encode_utf8(bytes);
    }
}

/// The cluster that a start writes is the endpoint's own, or a fresh one, with the test user and
/// its database behind the others exactly if they are asked for.
pub proof fn law_written_cluster(
    ep: EndpointView,
    args: StartArgsView,
    events: Seq<StartEventView>,
)
    requires
        start::is_history(ep, args, events),
        start::started(ep, args, events) is WritingConfig,
    ensures
        start::started(ep, args, events)->config.spec matches Some(spec) && {
            let cluster = spec.cluster;
            let more = if args.create_test_user {
                1int
            } else {
                0
            };
            &&& ep.cluster matches Some(own) ==> {
                &&& cluster.cluster_id == own.cluster_id
                &&& cluster.name == own.name
                &&& cluster.state == own.state
                &&& cluster.settings == own.settings
                &&& cluster.roles.len() == own.roles.len() + more
                &&& cluster.databases.len() == own.databases.len() + more
                &&& cluster.roles.take(own.roles.len() as int) == own.roles
                &&& cluster.databases.take(own.databases.len() as int) == own.databases
            }
            &&& ep.cluster is None ==> {
                &&& cluster.cluster_id is None
                &&& cluster.name is None
                &&& cluster.state is None
                &&& cluster.settings is None
                &&& cluster.roles.len() == more
                &&& cluster.databases.len() == more
            }
            &&& args.create_test_user ==> {
                &&& cluster.roles.last().name == "test"@
                &&& cluster.roles.last().encrypted_password is None
                &&& cluster.roles.last().options is None
                &&& cluster.databases.last().name == "neondb"@
                &&& cluster.databases.last().owner == "test"@
                &&& cluster.databases.last().options is None
                &&& !cluster.databases.last().restrict_conn
                &&& !cluster.databases.last().invalid
            }
        },
{
    start::law_configuration_is_what_was_read(ep, args, events);
    let cluster = start::started(ep, args, events)->config.spec->0.cluster;
    if let Some(own) = ep.cluster {
        assert(cluster.roles.take(own.roles.len() as int) =~= own.roles);
        assert(cluster.databases.take(own.databases.len() as int) =~= own.databases);
    }
}

/// A start is refused exactly if the endpoint has a pid file and accepts connections.
pub proof fn law_start_of_a_running_endpoint(
    ep: EndpointView,
    args: StartArgsView,
    has_pidfile: bool,
    can_connect: bool,
)
    ensures
        ({
            let next = start::start_next(
                ep,
                args,
                StartStateView::ProbingStatus,
                StartEventView::StatusProbed { has_pidfile, can_connect },
            );
            &&& has_pidfile && can_connect ==> next == (StartStateView::Failed {
                error: EndpointErrorView::AlreadyRunning,
                kill_child: false,
            })
            &&& !(has_pidfile && can_connect) ==> next == StartStateView::ReadingConf
        }),
{
}

/// The settings file is taken as the text that it holds, a missing one as empty. One that is not
/// UTF-8 or cannot be read ends the start.
pub proof fn law_start_reads_settings(ep: EndpointView, args: StartArgsView, read: FileReadView)
    ensures
        ({
            let next = start::start_next(
                ep,
                args,
                StartStateView::ReadingConf,
                StartEventView::ConfRead { read },
            );
            match read {
                FileReadView::Content(bytes) => if valid_utf8(bytes) {
                    next matches StartStateView::ClearingPgdata { conf } && encode_utf8(conf)
                        == bytes
                } else {
                    next == (StartStateView::Failed {
                        error: EndpointErrorView::NotUtf8 { cause: utf8_error_text(bytes) },
                        kill_child: false,
                    })
                },
                FileReadView::NotFound => next matches StartStateView::ClearingPgdata { conf }
                    && conf.len() == 0,
                FileReadView::Failed(cause) => next == (StartStateView::Failed {
                    error: EndpointErrorView::Io { cause },
                    kill_child: false,
                }),
            }
        }),
{
    if let FileReadView::Content(bytes) = read {
        if valid_utf8(bytes) {
            vstd::utf8::decode_utf8_encode_utf8(bytes);
        }
    }
}

/// Once the data directory is clear, the start goes on with the same settings, unless a
/// safekeeper is unknown. Once the remote extensions are known it goes on to write the
/// configuration, unless the pageservers cannot be listed.
pub proof fn law_start_resolves_servers(
    ep: EndpointView,
    args: StartArgsView,
    conf: Seq<char>,
    list: Seq<Seq<char>>,
    remote_extensions: Option<Seq<char>>,
)
    ensures
        match start::start_next(
            ep,
            args,
            StartStateView::ClearingPgdata { conf },
            StartEventView::PgdataCleared,
        ) {
            StartStateView::ReadingExtensions { conf: kept, safekeeper_connstrings: found } => kept
                == conf && if ep.mode == ComputeModeView::Primary {
                reaches(found, ep.env.safekeepers, args.safekeepers)
            } else {
                found.len() == 0
            },
            StartStateView::Failed { error, kill_child } => !kill_child && ep.mode
                == ComputeModeView::Primary && exists|i: int| #[trigger]
                is_first_unknown(ep.env.safekeepers, args.safekeepers, i) && error == (
                EndpointErrorView::SafekeeperMissing { id: args.safekeepers[i] }),
            _ => false,
        },
        match start::start_next(
            ep,
            args,
            StartStateView::ReadingExtensions { conf, safekeeper_connstrings: list },
            StartEventView::ExtensionsRead { remote_extensions },
        ) {
            StartStateView::WritingConfig { config } => args.pageserver_conninfo.connstring() is Ok
                && config.spec is Some && config.spec->0.safekeeper_connstrings == list
                && config.spec->0.cluster.postgresql_conf == Some(conf)
                && config.spec->0.remote_extensions == remote_extensions && config.spec->0.mode
                == ep.mode,
            StartStateView::Failed { error, kill_child } => !kill_child
                && args.pageserver_conninfo.connstring() == Err::<Option<Seq<char>>, _>(error),
            _ => false,
        },
{
    law_safekeepers_are_reached(ep, args.safekeepers);
}

/// Each piece of work that is done leads to the next: once the configuration is written the log
/// is opened, then Postgres is located and `compute_ctl` launched, its pid written down, and then
/// it is asked how it is doing, again after every pause.
pub proof fn law_start_moves_on(
    ep: EndpointView,
    args: StartArgsView,
    config: ComputeConfigView,
    command: CommandLineView,
    pg_bin_dir: Seq<char>,
    pid: u32,
)
    ensures
        start::start_next(
            ep,
            args,
            StartStateView::WritingConfig { config },
            StartEventView::ConfigWritten,
        ) == StartStateView::OpeningLog,
        start::start_next(ep, args, StartStateView::OpeningLog, StartEventView::LogOpened)
            == StartStateView::LocatingPostgres,
        start::start_next(
            ep,
            args,
            StartStateView::LocatingPostgres,
            StartEventView::PostgresLocated { pg_bin_dir },
        ) == (StartStateView::Launching { command: start::launch_command(ep, args, pg_bin_dir) }),
        start::start_next(
            ep,
            args,
            StartStateView::Launching { command },
            StartEventView::Launched { pid },
        ) == (StartStateView::WritingPid { pid }),
        start::start_next(
            ep,
            args,
            StartStateView::WritingPid { pid },
            StartEventView::PidWritten,
        ) == StartStateView::Polling,
        start::start_next(ep, args, StartStateView::Sleeping, StartEventView::Slept)
            == StartStateView::Polling,
{
}

/// What the compute answers decides: that it runs ends the start well, however long it took. That
/// it initialises, or no answer at all, is borne with until the time is up. That it failed, or
/// that it does something that does not belong to a start, ends the start.
pub proof fn law_poll_decides(
    ep: EndpointView,
    args: StartArgsView,
    reply: Result<StatusResponseView, Seq<char>>,
    elapsed: u128,
)
    ensures
        ({
            let next = start::start_next(
                ep,
                args,
                StartStateView::Polling,
                StartEventView::StatusPolled { reply, elapsed },
            );
            let over = |error: EndpointErrorView| StartStateView::Failed {
                error,
                kill_child: true,
            };
            match reply {
                Err(cause) => next == if elapsed > args.start_timeout {
                    over(EndpointErrorView::ConnectTimedOut { cause })
                } else {
                    StartStateView::Sleeping
                },
                Ok(response) => if response.status == ComputeStatus::Running {
                    next == StartStateView::Running
                } else if response.status == ComputeStatus::Init {
                    next == if elapsed > args.start_timeout {
                        over(EndpointErrorView::InitTimedOut)
                    } else {
                        StartStateView::Sleeping
                    }
                } else if response.status == ComputeStatus::Failed {
                    next == over(EndpointErrorView::StartupFailed { reason: response.error })
                } else {
                    next == over(EndpointErrorView::UnexpectedStatus { status: response.status })
                },
            }
        }),
{
}

/// Work that cannot be done ends the start, with what went wrong, and the process that was
/// launched does not outlive it.
pub proof fn law_failed_work_ends_the_start(
    ep: EndpointView,
    args: StartArgsView,
    state: StartStateView,
    cause: Seq<char>,
)
    requires
        state is ClearingPgdata || state is WritingConfig || state is OpeningLog || state
            is LocatingPostgres || state is Launching || state is WritingPid,
    ensures
        start::start_next(ep, args, state, StartEventView::IoFailed { cause }) == (
        StartStateView::Failed {
            error: EndpointErrorView::Io { cause },
            kill_child: state is WritingPid,
        }),
{
}

/// A start that is over stays as it is.
pub proof fn law_start_that_is_over(
    ep: EndpointView,
    args: StartArgsView,
    state: StartStateView,
    event: StartEventView,
)
    requires
        state is Running || state is Failed,
    ensures
        start::start_next(ep, args, state, event) == state,
{
}

/// What is done outside for each state of a start: which files are read, written and removed, and
/// what is asked of whom.
pub proof fn law_start_actions(
    ep: EndpointView,
    args: StartArgsView,
    conf: Seq<char>,
    list: Seq<Seq<char>>,
    config: ComputeConfigView,
    command: CommandLineView,
    pid: u32,
    error: EndpointErrorView,
)
    ensures
        start::action_of(ep, args, StartStateView::ProbingStatus)
            matches StartActionView::ProbeStatus { pidfile, address, timeout_millis } && lies_at(
            pidfile,
            ep,
            seq!["pgdata"@, "postmaster.pid"@],
        ) && address == ep.pg_address && timeout_millis == 300,
        start::action_of(ep, args, StartStateView::ReadingConf) matches StartActionView::ReadConf {
            path,
        } && lies_at(path, ep, seq!["postgresql.conf"@]),
        start::action_of(ep, args, StartStateView::ClearingPgdata { conf })
            matches StartActionView::RemoveDir { path } && lies_at(path, ep, seq!["pgdata"@]),
        start::action_of(
            ep,
            args,
            StartStateView::ReadingExtensions { conf, safekeeper_connstrings: list },
        ) matches StartActionView::ReadExtensions { path } && lies_at(
            path,
            ep,
            seq!["remote_extensions_spec.json"@],
        ),
        start::action_of(ep, args, StartStateView::WritingConfig { config })
            matches StartActionView::WriteConfig { path } && lies_at(
            path,
            ep,
            seq!["config.json"@],
        ),
        start::action_of(ep, args, StartStateView::OpeningLog) matches StartActionView::OpenLog {
            path,
        } && lies_at(path, ep, seq!["compute.log"@]),
        start::action_of(ep, args, StartStateView::Launching { command })
            == StartActionView::Launch,
        start::action_of(ep, args, StartStateView::WritingPid { pid })
            matches StartActionView::WriteFile { path, contents } && lies_at(
            path,
            ep,
            seq!["compute_ctl.pid"@],
        ) && numeral_u32(contents) == Some(pid) && contents == decimal(pid as nat),
        start::action_of(ep, args, StartStateView::Polling) == (StartActionView::PollStatus {
            request: status_request(ep),
        }),
        start::action_of(ep, args, StartStateView::Sleeping) == (StartActionView::Sleep {
            millis: 100,
        }),
        start::action_of(ep, args, StartStateView::Running) == StartActionView::Finish,
        start::action_of(ep, args, StartStateView::Failed { error, kill_child: true })
            == StartActionView::KillChild,
        start::action_of(ep, args, StartStateView::Failed { error, kill_child: false })
            == StartActionView::Finish,
{
    law_places(ep);
    crate::text::law_numeral_reads_back(pid);
}

/// Before the launch it is announced where to connect as the admin, and where as the test user
/// exactly if there is one.
pub proof fn law_announcements(ep: EndpointView, args: StartArgsView)
    ensures
        start::action_of(ep, args, StartStateView::LocatingPostgres)
            matches StartActionView::LocatePostgres { announcements } && {
            &&& announcements.len() == if args.create_test_user {
                2int
            } else {
                1
            }
            &&& announcements[0] == "Starting postgres node at '"@ + ep.connstr(
                "cloud_admin"@,
                "postgres"@,
            ) + "'"@
            &&& args.create_test_user ==> announcements[1] == "Also at '"@ + ep.connstr(
                "test"@,
                "neondb"@,
            ) + "'"@
        },
{
}

// ---------------------------------------------------------------------------------------------
// Stopping
// ---------------------------------------------------------------------------------------------

/// Whether everything at `inner` goes if the directory `outer` is removed.
pub open spec fn goes_with(inner: ChildPathView, outer: ChildPathView) -> bool {
    &&& inner.base == outer.base
    &&& inner.parts.len() >= outer.parts.len()
    &&& inner.parts.take(outer.parts.len() as int) == outer.parts
}

/// In every mode, an endpoint that is destroyed goes as a whole: the last thing done is to remove
/// a directory with which every file and the database of the endpoint go, and nothing of any
/// other endpoint.
pub proof fn law_destroyed_endpoint_goes_as_a_whole(
    ep: EndpointView,
    other: EndpointView,
    file: EndpointFile,
    mode: EndpointTerminateMode,
    compute_audience: Seq<char>,
    events: Seq<StopEventView>,
)
    requires
        stop::is_history(mode, true, events),
        stop::stopped(mode, true, events) is Stopped,
        other.env == ep.env,
        other.endpoint_id != ep.endpoint_id,
    ensures
        events.len() > 0,
        events.last() == StopEventView::Removed,
        stop::action_of(
            ep,
            mode,
            true,
            compute_audience,
            stop::stopped(mode, true, events.drop_last()),
        ) matches StopActionView::RemoveDir { pgdata, path } && {
            &&& pgdata == ep.pgdata()
            &&& goes_with(ep.file(file), path)
            &&& goes_with(ep.pgdata(), path)
            &&& goes_with(ep.postmaster_pid(), path)
            &&& goes_with(ep.dir(), path)
            &&& !goes_with(other.file(file), path)
            &&& !goes_with(other.pgdata(), path)
            &&& !goes_with(other.dir(), path)
        },
{
    stop::law_stop_takes_its_course(mode, true, events);
    assert(events.last() == events[3]);
    let before = stop::stopped(mode, true, events.drop_last());
    assert(stop::awaits(mode, before, events.last()));
    assert(before is Removing);
    let action = stop::action_of(ep, mode, true, compute_audience, before);
    let path = action->RemoveDir_path;
    assert(path.parts.len() == 1 && path.parts[0] == ep.endpoint_id);
    assert(ep.file(file).parts.take(1) =~= path.parts);
    assert(ep.pgdata().parts.take(1) =~= path.parts);
    assert(ep.postmaster_pid().parts.take(1) =~= path.parts);
    assert(ep.dir().parts.take(1) =~= path.parts);
    assert(other.file(file).parts.take(1)[0] == other.endpoint_id);
    assert(other.pgdata().parts.take(1)[0] == other.endpoint_id);
    assert(other.dir().parts.take(1)[0] == other.endpoint_id);
}

/// What is done outside for each state of a stop, in every mode: only the mode for it asks
/// `compute_ctl` to terminate, `compute_ctl` is left its cleanup only if the endpoint is stopped
/// fast and kept, and what is removed is the endpoint's directory.
pub proof fn law_stop_actions(
    ep: EndpointView,
    mode: EndpointTerminateMode,
    destroy: bool,
    compute_audience: Seq<char>,
    lsn: Option<Seq<char>>,
    pid: int,
    error: EndpointErrorView,
)
    ensures
        mode == EndpointTerminateMode::ImmediateTerminate ==> stop::action_of(
            ep,
            mode,
            destroy,
            compute_audience,
            StopStateView::Halting,
        ) == (StopActionView::Terminate { request: terminate_request(ep, compute_audience) }),
        mode == EndpointTerminateMode::Fast ==> stop::action_of(
            ep,
            mode,
            destroy,
            compute_audience,
            StopStateView::Halting,
        ) == (StopActionView::PgCtl { args: seq!["-m"@, "fast"@, "stop"@] }),
        mode == EndpointTerminateMode::Immediate ==> stop::action_of(
            ep,
            mode,
            destroy,
            compute_audience,
            StopStateView::Halting,
        ) == (StopActionView::PgCtl { args: seq!["-m"@, "immediate"@, "stop"@] }),
        stop::action_of(ep, mode, destroy, compute_audience, StopStateView::ReadingPid { lsn })
            matches StopActionView::ReadPid { path } && lies_at(
            path,
            ep,
            seq!["compute_ctl.pid"@],
        ),
        stop::action_of(
            ep,
            mode,
            destroy,
            compute_audience,
            StopStateView::AwaitingExit { lsn, pid },
        ) == (StopActionView::AwaitExit {
            pid,
            send_sigterm: !(mode == EndpointTerminateMode::Fast && !destroy),
        }),
        stop::action_of(ep, mode, destroy, compute_audience, StopStateView::Removing { lsn })
            matches StopActionView::RemoveDir { pgdata, path } && lies_at(path, ep, seq![])
            && lies_at(pgdata, ep, seq!["pgdata"@]),
        stop::action_of(ep, mode, destroy, compute_audience, StopStateView::Stopped { lsn })
            == StopActionView::Finish,
        stop::action_of(ep, mode, destroy, compute_audience, StopStateView::Failed { error })
            == StopActionView::Finish,
{
    law_places(ep);
}

/// Where each outcome leads a stop. What could not be done ends it, with what went wrong.
pub proof fn law_stop_moves_on(
    mode: EndpointTerminateMode,
    destroy: bool,
    lsn: Option<Seq<char>>,
    pid: int,
    text: Seq<char>,
    exit_status: Seq<char>,
    stdout: Seq<char>,
    stderr: Seq<char>,
    cause: Seq<char>,
)
    ensures
        mode == EndpointTerminateMode::ImmediateTerminate ==> stop::stop_next(
            mode,
            destroy,
            StopStateView::Halting,
            StopEventView::Terminated { lsn },
        ) == (StopStateView::ReadingPid { lsn }),
        mode != EndpointTerminateMode::ImmediateTerminate ==> stop::stop_next(
            mode,
            destroy,
            StopStateView::Halting,
            StopEventView::PgCtlRan { success: true, exit_status, stdout, stderr },
        ) == (StopStateView::ReadingPid { lsn: None }),
        mode != EndpointTerminateMode::ImmediateTerminate ==> stop::stop_next(
            mode,
            destroy,
            StopStateView::Halting,
            StopEventView::PgCtlRan { success: false, exit_status, stdout, stderr },
        ) == (StopStateView::Failed {
            error: EndpointErrorView::PgCtlFailed { exit_status, stdout, stderr },
        }),
        match stop::stop_next(
            mode,
            destroy,
            StopStateView::ReadingPid { lsn },
            StopEventView::PidRead { text },
        ) {
            StopStateView::AwaitingExit { lsn: kept, pid: read } => kept == lsn && (numeral_u32(
                text,
            ) matches Some(n) && read == as_signed(n)),
            StopStateView::Failed { error } => numeral_u32(text) is None && error == (
            EndpointErrorView::InvalidPid { cause: u32_error_text(text) }),
            _ => false,
        },
        stop::stop_next(
            mode,
            destroy,
            StopStateView::AwaitingExit { lsn, pid },
            StopEventView::Exited,
        ) == if destroy {
            StopStateView::Removing { lsn }
        } else {
            StopStateView::Stopped { lsn }
        },
        stop::stop_next(
            mode,
            destroy,
            StopStateView::Removing { lsn },
            StopEventView::Removed,
        ) == (StopStateView::Stopped { lsn }),
        ({
            let failed = StopStateView::Failed { error: EndpointErrorView::Io { cause } };
            let event = StopEventView::IoFailed { cause };
            &&& stop::stop_next(mode, destroy, StopStateView::Halting, event) == failed
            &&& stop::stop_next(mode, destroy, StopStateView::ReadingPid { lsn }, event) == failed
            &&& stop::stop_next(mode, destroy, StopStateView::AwaitingExit { lsn, pid }, event)
                == failed
            &&& stop::stop_next(mode, destroy, StopStateView::Removing { lsn }, event) == failed
        }),
{
}

/// A stop that is over stays as it is.
pub proof fn law_stop_that_is_over(
    mode: EndpointTerminateMode,
    destroy: bool,
    state: StopStateView,
    event: StopEventView,
)
    requires
        state is Stopped || state is Failed,
    ensures
        stop::stop_next(mode, destroy, state, event) == state,
{
}

/// An endpoint runs if it has a pid file and accepts connections, is stopped if neither, has
/// crashed if it has only the file, and lacks the file if it only accepts connections.
pub proof fn law_status(has_pidfile: bool, can_connect: bool)
    ensures
        ({
            let status = EndpointStatus::of(has_pidfile, can_connect);
            &&& status == EndpointStatus::Running <==> has_pidfile && can_connect
            &&& status == EndpointStatus::Stopped <==> !has_pidfile && !can_connect
            &&& status == EndpointStatus::Crashed <==> has_pidfile && !can_connect
            &&& status == EndpointStatus::RunningNoPidfile <==> !has_pidfile && can_connect
        }),
{
}

/// An event that is no outcome of a start's current work changes nothing.
pub proof fn law_start_ignores_events_out_of_turn(
    ep: EndpointView,
    args: StartArgsView,
    state: StartStateView,
    event: StartEventView,
)
    requires
        match state {
            StartStateView::ProbingStatus => !(event is StatusProbed),
            StartStateView::ReadingConf => !(event is ConfRead),
            StartStateView::ClearingPgdata { .. } => !(event is PgdataCleared || event is IoFailed),
            StartStateView::ReadingExtensions { .. } => !(event is ExtensionsRead),
            StartStateView::WritingConfig { .. } => !(event is ConfigWritten || event is IoFailed),
            StartStateView::OpeningLog => !(event is LogOpened || event is IoFailed),
            StartStateView::LocatingPostgres => !(event is PostgresLocated || event is IoFailed),
            StartStateView::Launching { .. } => !(event is Launched || event is IoFailed),
            StartStateView::WritingPid { .. } => !(event is PidWritten || event is IoFailed),
            StartStateView::Polling => !(event is StatusPolled),
            StartStateView::Sleeping => !(event is Slept),
            _ => true,
        },
    ensures
        start::start_next(ep, args, state, event) == state,
{
}

/// An event that is no outcome of a stop's current work changes nothing.
pub proof fn law_stop_ignores_events_out_of_turn(
    mode: EndpointTerminateMode,
    destroy: bool,
    state: StopStateView,
    event: StopEventView,
)
    requires
        match state {
            StopStateView::Halting => !(event is IoFailed) && if mode
                == EndpointTerminateMode::ImmediateTerminate {
                !(event is Terminated)
            } else {
                !(event is PgCtlRan)
            },
            StopStateView::ReadingPid { .. } => !(event is PidRead || event is IoFailed),
            StopStateView::AwaitingExit { .. } => !(event is Exited || event is IoFailed),
            StopStateView::Removing { .. } => !(event is Removed || event is IoFailed),
            _ => true,
        },
    ensures
        stop::stop_next(mode, destroy, state, event) == state,
{
}

// ---------------------------------------------------------------------------------------------
// Answers
// ---------------------------------------------------------------------------------------------

/// The key set of any key and digest names the key by the digest and holds the key.
pub proof fn law_key_is_named_by_its_digest(public_key: Seq<u8>, digest: Seq<u8>)
    ensures
        ({
            let set = verifying_key_set(public_key, digest);
            &&& set.len() == 1
            &&& set[0].key_id == Some(base64_url(digest))
            &&& set[0].algorithm == (AlgorithmParametersView::OctetKeyPair {
                curve: NameView::Known,
                x: base64_url(public_key),
            })
        }),
{
}

/// A reconfiguration asks for the new specification along with the configuration of `compute_ctl`
/// that the file had.
pub proof fn law_reconfiguration_keeps_compute_ctl_config(
    r: Result<ConfigurationRequest, EndpointError>,
    config: ComputeConfigView,
    wanted: Result<ComputeSpecView, EndpointErrorView>,
)
    requires
        is_reconfiguration(r, config, wanted),
    ensures
        match r {
            Ok(request) => request.compute_ctl_config@ == config.compute_ctl_config && wanted
                == Ok::<_, EndpointErrorView>(request.spec@),
            Err(error) => wanted == Err::<ComputeSpecView, _>(error@),
        },
{
}

/// What an entry of the directory of endpoints holds: the endpoint of its configuration, under the
/// name of the directory, or why there is none.
pub proof fn law_entry(entry: DirEntryView, env: LocalEnvView)
    ensures
        match entry {
            DirEntryView::Conf { endpoint_id, conf } => entry_endpoint(entry, env) matches Ok(ep)
                && ep == endpoint_of(endpoint_id, conf, env),
            DirEntryView::NotADirectory { path } => entry_endpoint(entry, env) == Err::<
                EndpointView,
                _,
            >(EndpointErrorView::NotADirectory { path }),
            DirEntryView::Vanished { cause } => entry_endpoint(entry, env) == Err::<
                EndpointView,
                _,
            >(EndpointErrorView::Vanished { cause }),
            DirEntryView::Failed { cause } => entry_endpoint(entry, env) == Err::<EndpointView, _>(
                EndpointErrorView::Io { cause },
            ),
        },
{
}

/// The endpoint that is named as being in the way is up, and none before it is.
pub proof fn law_first_up(statuses: Seq<EndpointStatus>, i: int)
    ensures
        is_first_up(statuses, i) <==> 0 <= i < statuses.len() && statuses[i]
            != EndpointStatus::Stopped && forall|j: int|
            0 <= j < i ==> #[trigger] statuses[j] == EndpointStatus::Stopped,
{
}

/// An address with its port, wherever it is written.
pub proof fn law_authority(address: SocketAddress)
    ensures
        address.authority() == at(address),
{
}

/// A path of a base directory and one component has that base and that component, and joining
/// another component puts it behind the others.
pub proof fn law_paths(base: Seq<char>, path: ChildPathView, part: Seq<char>)
    ensures
        root_path(base).base == base,
        root_path(base).parts.len() == 0,
        path.join(part).base == path.base,
        path.join(part).parts == path.parts + seq![part],
{
    assert(path.join(part).parts =~= path.parts + seq![part]);
}

// ---------------------------------------------------------------------------------------------
// What values stand for
// ---------------------------------------------------------------------------------------------

/// A mode stands for itself, with the position in the log where it has one.
pub proof fn law_mode_view(mode: ComputeMode)
    ensures
        mode@ == match mode {
            ComputeMode::Primary => ComputeModeView::Primary,
            ComputeMode::Static(lsn) => ComputeModeView::Static(lsn.text@),
            ComputeMode::Replica => ComputeModeView::Replica,
        },
{
}

/// A compute's answer stands for its status and its error.
pub proof fn law_status_response_view(response: ComputeStatusResponse)
    ensures
        response@.status == response.status,
        match response.error {
            Some(error) => response@.error == Some(error@),
            None => response@.error is None,
        },
{
}

/// The arguments of a start stand for all that they hold.
pub proof fn law_start_args_view(args: EndpointStartArgs)
    ensures
        match args.auth_token {
            Some(token) => args@.auth_token == Some(token@),
            None => args@.auth_token is None,
        },
        args@.endpoint_storage_token == args.endpoint_storage_token@,
        args@.endpoint_storage_addr == args.endpoint_storage_addr@,
        args@.safekeepers_generation == args.safekeepers_generation,
        args@.safekeepers == args.safekeepers@,
        args@.pageserver_conninfo == args.pageserver_conninfo@,
        match args.remote_ext_base_url {
            Some(url) => args@.remote_ext_base_url == Some(url@),
            None => args@.remote_ext_base_url is None,
        },
        args@.create_test_user == args.create_test_user,
        args@.start_timeout == args.start_timeout,
        args@.autoprewarm == args.autoprewarm,
        match args.offload_lfc_interval_seconds {
            Some(seconds) => args@.offload_lfc_interval_seconds == Some(seconds@),
            None => args@.offload_lfc_interval_seconds is None,
        },
        args@.dev == args.dev,
{
}

/// An endpoint stands for all that it holds.
pub proof fn law_endpoint_view(ep: Endpoint)
    ensures
        ep@.endpoint_id == ep.endpoint_id@,
        ep@.tenant_id == ep.tenant_id.text@,
        ep@.timeline_id == ep.timeline_id.text@,
        ep@.mode == ep.mode@,
        ep@.grpc == ep.grpc,
        ep@.pg_address == ep.pg_address,
        ep@.external_http_address == ep.external_http_address,
        ep@.internal_http_address == ep.internal_http_address,
        ep@.pg_version == ep.pg_version,
        ep@.env.endpoints_path == ep.env.endpoints_path@,
        ep@.env.neon_distrib_dir == ep.env.neon_distrib_dir@,
        ep@.env.safekeepers == ep.env.safekeepers@,
        ep@.skip_pg_catalog_updates == ep.skip_pg_catalog_updates,
        ep@.drop_subscriptions_before_start == ep.drop_subscriptions_before_start,
        ep@.reconfigure_concurrency == ep.reconfigure_concurrency,
        ep@.features.len() == ep.features@.len(),
        forall|i: int|
            0 <= i < ep.features@.len() ==> #[trigger] ep@.features[i] == ep.features@[i].name@,
        match ep.cluster {
            Some(cluster) => ep@.cluster == Some(cluster@),
            None => ep@.cluster is None,
        },
        ep@.compute_ctl_config == ep.compute_ctl_config@,
        match ep.privileged_role_name {
            Some(name) => ep@.privileged_role_name == Some(name@),
            None => ep@.privileged_role_name is None,
        },
{
}

/// The configuration of an endpoint stands for all that it holds.
pub proof fn law_endpoint_conf_view(conf: EndpointConf)
    ensures
        conf@.endpoint_id == conf.endpoint_id@,
        conf@.tenant_id == conf.tenant_id.text@,
        conf@.timeline_id == conf.timeline_id.text@,
        conf@.mode == conf.mode@,
        conf@.pg_port == conf.pg_port,
        conf@.external_http_port == conf.external_http_port,
        conf@.internal_http_port == conf.internal_http_port,
        conf@.pg_version == conf.pg_version,
        conf@.grpc == conf.grpc,
        conf@.skip_pg_catalog_updates == conf.skip_pg_catalog_updates,
        conf@.reconfigure_concurrency == conf.reconfigure_concurrency,
        conf@.drop_subscriptions_before_start == conf.drop_subscriptions_before_start,
        conf@.features.len() == conf.features@.len(),
        forall|i: int|
            0 <= i < conf.features@.len() ==> #[trigger] conf@.features[i]
                == conf.features@[i].name@,
        match conf.cluster {
            Some(cluster) => conf@.cluster == Some(cluster@),
            None => conf@.cluster is None,
        },
        conf@.compute_ctl_config == conf.compute_ctl_config@,
        match conf.privileged_role_name {
            Some(name) => conf@.privileged_role_name == Some(name@),
            None => conf@.privileged_role_name is None,
        },
{
}

/// A located shard stands for its place among the shards of its tenant and for where it is.
pub proof fn law_located_shard_view(shard: TenantLocateResponseShard)
    ensures
        ({
            let view = shard.deep_view();
            &&& view.index.shard_number == shard.shard_id.shard_number
            &&& view.index.shard_count == shard.shard_id.shard_count
            &&& view.node_id == shard.node_id
            &&& view.listen_pg_addr == shard.listen_pg_addr@
            &&& view.listen_pg_port == shard.listen_pg_port
            &&& match shard.listen_grpc_addr {
                Some(host) => view.listen_grpc_addr == Some(host@),
                None => view.listen_grpc_addr is None,
            }
            &&& view.listen_grpc_port == shard.listen_grpc_port
        }),
{
}

/// Connection info stands for all that it holds.
pub proof fn law_connection_info_view(info: PageserverConnectionInfo)
    ensures
        info@.shard_count == info.shard_count,
        info@.stripe_size == info.stripe_size,
        info@.shards == info.shards@,
        info@.prefer_protocol == info.prefer_protocol,
{
}

/// A specification stands for what it holds of what a start and a reconfiguration set.
pub proof fn law_specification_view(spec: ComputeSpec)
    ensures
        spec@.mode == spec.mode@,
        spec@.cluster == spec.cluster@,
        match spec.tenant_id {
            Some(id) => spec@.tenant_id == Some(id.text@),
            None => spec@.tenant_id is None,
        },
        match spec.timeline_id {
            Some(id) => spec@.timeline_id == Some(id.text@),
            None => spec@.timeline_id is None,
        },
        match spec.endpoint_id {
            Some(id) => spec@.endpoint_id == Some(id@),
            None => spec@.endpoint_id is None,
        },
        match spec.pageserver_connection_info {
            Some(info) => spec@.pageserver_connection_info == Some(info@),
            None => spec@.pageserver_connection_info is None,
        },
        match spec.pageserver_connstring {
            Some(text) => spec@.pageserver_connstring == Some(text@),
            None => spec@.pageserver_connstring is None,
        },
        spec@.shard_stripe_size == spec.shard_stripe_size,
        spec@.safekeepers_generation == spec.safekeepers_generation,
        spec@.safekeeper_connstrings.len() == spec.safekeeper_connstrings@.len(),
        forall|i: int|
            0 <= i < spec.safekeeper_connstrings@.len() ==> #[trigger]
            spec@.safekeeper_connstrings[i] == spec.safekeeper_connstrings@[i]@,
        match spec.storage_auth_token {
            Some(token) => spec@.storage_auth_token == Some(token@),
            None => spec@.storage_auth_token is None,
        },
        match spec.endpoint_storage_addr {
            Some(text) => spec@.endpoint_storage_addr == Some(text@),
            None => spec@.endpoint_storage_addr is None,
        },
        match spec.endpoint_storage_token {
            Some(text) => spec@.endpoint_storage_token == Some(text@),
            None => spec@.endpoint_storage_token is None,
        },
        match spec.remote_extensions {
            Some(json) => spec@.remote_extensions == Some(json.text@),
            None => spec@.remote_extensions is None,
        },
        spec@.skip_pg_catalog_updates == spec.skip_pg_catalog_updates,
        spec@.drop_subscriptions_before_start == spec.drop_subscriptions_before_start,
        spec@.reconfigure_concurrency == spec.reconfigure_concurrency,
        spec@.autoprewarm == spec.autoprewarm,
        spec@.suspend_timeout_seconds == spec.suspend_timeout_seconds,
        spec@.features.len() == spec.features@.len(),
        forall|i: int|
            0 <= i < spec.features@.len() ==> #[trigger] spec@.features[i]
                == spec.features@[i].name@,
{
}

/// A cluster stands for its roles, its databases and its settings.
pub proof fn law_cluster_view(cluster: Cluster)
    ensures
        cluster@.roles.len() == cluster.roles@.len(),
        forall|i: int|
            0 <= i < cluster.roles@.len() ==> (#[trigger] cluster@.roles[i]).name
                == cluster.roles@[i].name@,
        cluster@.databases.len() == cluster.databases@.len(),
        forall|i: int|
            0 <= i < cluster.databases@.len() ==> (#[trigger] cluster@.databases[i]).name
                == cluster.databases@[i].name@ && cluster@.databases[i].owner
                == cluster.databases@[i].owner@,
        match cluster.postgresql_conf {
            Some(conf) => cluster@.postgresql_conf == Some(conf@),
            None => cluster@.postgresql_conf is None,
        },
{
}

} // verus!
