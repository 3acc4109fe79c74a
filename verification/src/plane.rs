//! The control plane: all endpoints of an environment.
use vstd::prelude::*;

use crate::address::{Ipv4Address, SocketAddress};
use crate::compute::{ComputeCtlConfig, ComputeCtlConfigView};
use crate::endpoint::{endpoint_of, Endpoint, EndpointConf, EndpointConfView, EndpointView};
use crate::error::{EndpointError, EndpointErrorView};
use crate::ids::{ComputeMode, ComputeModeView, PgMajorVersion, TenantId, TimelineId};
use crate::jwks::{jwks_for_key, jwks_of, JwkSet, JwkView, Pem};
use crate::local_env::{LocalEnv, LocalEnvView};
use crate::outside::{decode_public_key, sha256_digest};
use crate::status::EndpointStatus;
use crate::text::{
    is_before, lemma_text_before_irreflexive, lemma_text_before_total,
    lemma_text_before_transitive, text_before,
};

verus! {

/// Whether the ids of the endpoints ascend. No id occurs twice then.
pub open spec fn ascending(listing: Seq<EndpointView>) -> bool {
    forall|i: int, j: int|
        0 <= i < j < listing.len() ==> text_before(
            (#[trigger] listing[i]).endpoint_id,
            (#[trigger] listing[j]).endpoint_id,
        )
}

/// Whether some endpoint has the id `id`.
pub open spec fn has_id(listing: Seq<EndpointView>, id: Seq<char>) -> bool {
    exists|i: int| 0 <= i < listing.len() && (#[trigger] listing[i]).endpoint_id == id
}

/// The endpoint with the id `id`, where there is one.
pub open spec fn with_id(listing: Seq<EndpointView>, id: Seq<char>) -> EndpointView {
    listing[choose|i: int| 0 <= i < listing.len() && (#[trigger] listing[i]).endpoint_id == id]
}

/// The endpoints by their ids.
pub open spec fn by_id(listing: Seq<EndpointView>) -> Map<Seq<char>, EndpointView> {
    Map::new(|id: Seq<char>| has_id(listing, id), |id: Seq<char>| with_id(listing, id))
}

/// If the ids ascend, no two endpoints share one.
proof fn lemma_ids_differ(listing: Seq<EndpointView>, i: int, j: int)
    requires
        ascending(listing),
        0 <= i < listing.len(),
        0 <= j < listing.len(),
        listing[i].endpoint_id == listing[j].endpoint_id,
    ensures
        i == j,
{
    lemma_text_before_irreflexive(listing[i].endpoint_id);
}

/// If the ids ascend, each endpoint is found under its id.
pub(crate) proof fn lemma_by_id(listing: Seq<EndpointView>, i: int)
    requires
        ascending(listing),
        0 <= i < listing.len(),
    ensures
        by_id(listing).contains_key(listing[i].endpoint_id),
        by_id(listing)[listing[i].endpoint_id] == listing[i],
{
    let id = listing[i].endpoint_id;
    let j = choose|j: int| 0 <= j < listing.len() && (#[trigger] listing[j]).endpoint_id == id;
    assert(has_id(listing, id));
    lemma_ids_differ(listing, i, j);
}

/// Without its last endpoint, a listing has all the others.
proof fn lemma_by_id_drop_last(listing: Seq<EndpointView>)
    requires
        ascending(listing),
        listing.len() > 0,
    ensures
        ascending(listing.drop_last()),
        by_id(listing.drop_last()) == by_id(listing).remove(listing.last().endpoint_id),
{
    let short = listing.drop_last();
    let last = listing.last().endpoint_id;
    assert forall|i: int, j: int| 0 <= i < j < short.len() implies text_before(
        (#[trigger] short[i]).endpoint_id,
        (#[trigger] short[j]).endpoint_id,
    ) by {
        assert(listing[i] == short[i] && listing[j] == short[j]);
    }
    assert forall|id: Seq<char>|
        by_id(short).contains_key(id) <==> by_id(listing).remove(last).contains_key(id) by {
        if has_id(short, id) {
            let i = choose|i: int| 0 <= i < short.len() && (#[trigger] short[i]).endpoint_id == id;
            assert(listing[i].endpoint_id == id);
            if id == last {
                lemma_ids_differ(listing, i, listing.len() - 1);
            }
        }
        if has_id(listing, id) && id != last {
            let i = choose|i: int|
                0 <= i < listing.len() && (#[trigger] listing[i]).endpoint_id == id;
            assert(short[i].endpoint_id == id);
        }
    }
    assert forall|id: Seq<char>| by_id(short).contains_key(id) implies by_id(short)[id] == by_id(
        listing,
    ).remove(last)[id] by {
        let i = choose|i: int| 0 <= i < short.len() && (#[trigger] short[i]).endpoint_id == id;
        lemma_by_id(short, i);
        assert(listing[i] == short[i]);
        lemma_by_id(listing, i);
    }
    assert(by_id(short) =~= by_id(listing).remove(last));
}

/// The order in which endpoints are listed is settled by which endpoints there are.
pub proof fn law_listing_is_determined(a: Seq<EndpointView>, b: Seq<EndpointView>)
    requires
        ascending(a),
        ascending(b),
        by_id(a) == by_id(b),
    ensures
        a == b,
    decreases a.len(),
{
    if a.len() == 0 {
        if b.len() > 0 {
            lemma_by_id(b, 0);
            assert(has_id(a, b[0].endpoint_id));
        }
        assert(a =~= b);
    } else {
        lemma_by_id(a, a.len() - 1);
        assert(has_id(b, a.last().endpoint_id));
        lemma_by_id(b, b.len() - 1);
        assert(has_id(a, b.last().endpoint_id));
        let i = choose|i: int|
            0 <= i < a.len() && (#[trigger] a[i]).endpoint_id == b.last().endpoint_id;
        let j = choose|j: int|
            0 <= j < b.len() && (#[trigger] b[j]).endpoint_id == a.last().endpoint_id;
        if i < a.len() - 1 && j < b.len() - 1 {
            assert(text_before(a[i].endpoint_id, a[a.len() - 1].endpoint_id));
            assert(text_before(b[j].endpoint_id, b[b.len() - 1].endpoint_id));
            lemma_text_before_transitive(
                a[i].endpoint_id,
                a.last().endpoint_id,
                b.last().endpoint_id,
            );
            lemma_text_before_irreflexive(b.last().endpoint_id);
        }
        assert(a.last().endpoint_id == b.last().endpoint_id);
        assert(a.last() == b.last());
        lemma_by_id_drop_last(a);
        lemma_by_id_drop_last(b);
        law_listing_is_determined(a.drop_last(), b.drop_last());
        assert(a =~= a.drop_last().push(a.last()));
        assert(b =~= b.drop_last().push(b.last()));
    }
}

/// The endpoints of an environment, in the order of their ids.
#[derive(Debug, PartialEq, Eq)]
pub struct EndpointMap {
    entries: Vec<Endpoint>,
}

impl View for EndpointMap {
    type V = Seq<EndpointView>;

    closed spec fn view(&self) -> Seq<EndpointView> {
        self.entries.deep_view()
    }
}

impl EndpointMap {
    #[verifier::type_invariant]
    spec fn well_formed(self) -> bool {
        ascending(self.entries.deep_view())
    }

    /// No endpoints.
    pub fn new() -> (r: EndpointMap)
        ensures
            r@ == Seq::<EndpointView>::empty(),
            by_id(r@) == Map::<Seq<char>, EndpointView>::empty(),
    {
        let r = EndpointMap { entries: Vec::new() };
        assert(r@ =~= Seq::<EndpointView>::empty());
        assert(by_id(r@) =~= Map::<Seq<char>, EndpointView>::empty());
        r
    }

    /// Adds an endpoint, in place of an earlier one with the same id.
    pub fn insert(&mut self, endpoint: Endpoint)
        ensures
            ascending(final(self)@),
            by_id(final(self)@) == by_id(old(self)@).insert(endpoint@.endpoint_id, endpoint@),
    {
        proof {
            use_type_invariant(&*self);
        }
        let mut entries: Vec<Endpoint> = Vec::new();
        std::mem::swap(&mut entries, &mut self.entries);
        let ghost before = entries.deep_view();
        let ghost new = endpoint@;
        let mut i: usize = 0;
        while i < entries.len() && is_before(
            entries[i].endpoint_id.as_str(),
            endpoint.endpoint_id.as_str(),
        )
            invariant
                i <= entries@.len(),
                before == entries.deep_view(),
                new == endpoint@,
                forall|j: int|
                    0 <= j < i ==> text_before(
                        (#[trigger] before[j]).endpoint_id,
                        new.endpoint_id,
                    ),
            decreases entries@.len() - i,
        {
            assert(before[i as int] == entries@[i as int]@);
            i = i + 1;
        }
        let replace = i < entries.len() && entries[i].endpoint_id == endpoint.endpoint_id;
        if replace {
            assert(before[i as int] == entries@[i as int]@);
            entries.set(i, endpoint);
            proof {
                assert(entries.deep_view() =~= before.update(i as int, new));
                lemma_replaced(before, i as int, new);
            }
        } else {
            entries.insert(i, endpoint);
            proof {
                assert(entries.deep_view() =~= before.insert(i as int, new));
                lemma_inserted(before, i as int, new);
            }
        }
        self.entries = entries;
    }

    /// The endpoint with the id `id`.
    pub fn get(&self, id: &str) -> (r: Option<&Endpoint>)
        ensures
            match r {
                Some(endpoint) => by_id(self@).contains_key(id@) && endpoint@ == by_id(self@)[id@],
                None => !by_id(self@).contains_key(id@),
            },
    {
        proof {
            use_type_invariant(self);
        }
        let ghost all = self@;
        let wanted: String = id.to_owned();
        let mut i: usize = 0;
        while i < self.entries.len()
            invariant
                i <= self.entries@.len(),
                all == self.entries.deep_view(),
                all == self@,
                ascending(all),
                wanted@ == id@,
                forall|j: int| 0 <= j < i ==> (#[trigger] all[j]).endpoint_id != id@,
            decreases self.entries@.len() - i,
        {
            assert(all[i as int] == self.entries@[i as int]@);
            if self.entries[i].endpoint_id == wanted {
                proof {
                    lemma_by_id(all, i as int);
                }
                return Some(&self.entries[i]);
            }
            i = i + 1;
        }
        None
    }

    /// The endpoints, in the order of their ids.
    pub fn listing(&self) -> (r: &Vec<Endpoint>)
        ensures
            r.deep_view() == self@,
            ascending(self@),
    {
        proof {
            use_type_invariant(self);
        }
        &self.entries
    }
}

/// An endpoint that takes the place of one with the same id.
proof fn lemma_replaced(before: Seq<EndpointView>, i: int, new: EndpointView)
    requires
        ascending(before),
        0 <= i < before.len(),
        before[i].endpoint_id == new.endpoint_id,
    ensures
        ascending(before.update(i, new)),
        by_id(before.update(i, new)) == by_id(before).insert(new.endpoint_id, new),
{
    let after = before.update(i, new);
    assert forall|j: int, k: int| 0 <= j < k < after.len() implies text_before(
        (#[trigger] after[j]).endpoint_id,
        (#[trigger] after[k]).endpoint_id,
    ) by {
        assert(before[j].endpoint_id == after[j].endpoint_id);
        assert(before[k].endpoint_id == after[k].endpoint_id);
    }
    let wanted = by_id(before).insert(new.endpoint_id, new);
    assert forall|id: Seq<char>| by_id(after).contains_key(id) <==> wanted.contains_key(id) by {
        if has_id(after, id) {
            let j = choose|j: int| 0 <= j < after.len() && (#[trigger] after[j]).endpoint_id == id;
            assert(before[j].endpoint_id == id);
        }
        if has_id(before, id) {
            let j = choose|j: int| 0 <= j < before.len() && (#[trigger] before[j]).endpoint_id == id;
            assert(after[j].endpoint_id == id);
        }
        if id == new.endpoint_id {
            assert(after[i].endpoint_id == id);
        }
    }
    assert forall|id: Seq<char>| by_id(after).contains_key(id) implies by_id(after)[id]
        == wanted[id] by {
        let j = choose|j: int| 0 <= j < after.len() && (#[trigger] after[j]).endpoint_id == id;
        lemma_by_id(after, j);
        lemma_by_id(before, j);
        assert(before[j].endpoint_id == id);
        if id == new.endpoint_id {
            lemma_ids_differ(before, i, j);
        }
    }
    assert(by_id(after) =~= wanted);
}

/// An endpoint that is put where its id belongs.
proof fn lemma_inserted(before: Seq<EndpointView>, i: int, new: EndpointView)
    requires
        ascending(before),
        0 <= i <= before.len(),
        forall|j: int|
            0 <= j < i ==> text_before((#[trigger] before[j]).endpoint_id, new.endpoint_id),
        i < before.len() ==> before[i].endpoint_id != new.endpoint_id && !text_before(
            before[i].endpoint_id,
            new.endpoint_id,
        ),
    ensures
        ascending(before.insert(i, new)),
        by_id(before.insert(i, new)) == by_id(before).insert(new.endpoint_id, new),
{
    let after = before.insert(i, new);
    let at = |j: int| if j < i { j } else { j + 1 };
    assert forall|j: int| i <= j < before.len() implies text_before(
        new.endpoint_id,
        (#[trigger] before[j]).endpoint_id,
    ) by {
        lemma_text_before_total(before[i].endpoint_id, new.endpoint_id);
        if i < j {
            lemma_text_before_transitive(
                new.endpoint_id,
                before[i].endpoint_id,
                before[j].endpoint_id,
            );
        }
    }
    assert forall|j: int, k: int| 0 <= j < k < after.len() implies text_before(
        (#[trigger] after[j]).endpoint_id,
        (#[trigger] after[k]).endpoint_id,
    ) by {
        let before_j = if j < i { j } else { j - 1 };
        let before_k = if k < i { k } else { k - 1 };
        if j != i {
            assert(after[j] == before[before_j]);
        }
        if k != i {
            assert(after[k] == before[before_k]);
        }
    }
    let wanted = by_id(before).insert(new.endpoint_id, new);
    lemma_by_id(after, i);
    assert forall|id: Seq<char>| by_id(after).contains_key(id) <==> wanted.contains_key(id) by {
        if has_id(after, id) && id != new.endpoint_id {
            let j = choose|j: int| 0 <= j < after.len() && (#[trigger] after[j]).endpoint_id == id;
            assert(before[if j < i { j } else { j - 1 }].endpoint_id == id);
        }
        if has_id(before, id) {
            let j = choose|j: int| 0 <= j < before.len() && (#[trigger] before[j]).endpoint_id == id;
            assert(after[at(j)].endpoint_id == id);
        }
    }
    assert forall|id: Seq<char>| by_id(after).contains_key(id) implies by_id(after)[id]
        == wanted[id] by {
        if id != new.endpoint_id {
            let j = choose|j: int| 0 <= j < after.len() && (#[trigger] after[j]).endpoint_id == id;
            lemma_by_id(after, j);
            lemma_by_id(before, if j < i { j } else { j - 1 });
        }
    }
    assert(by_id(after) =~= wanted);
}

/// What was found at an entry of the directory of endpoints.
#[derive(Debug, PartialEq, Eq)]
pub enum DirEntryRead {
    /// The entry is not a directory.
    NotADirectory { path: String },
    /// The entry, or its `endpoint.json`, was gone when it was to be read.
    Vanished { cause: String },
    /// The entry could not be read.
    Failed { cause: String },
    /// The contents of the `endpoint.json` in the directory `endpoint_id`.
    Conf { endpoint_id: String, conf: EndpointConf },
}

/// What a [`DirEntryRead`] denotes.
#[verifier::ext_equal]
pub enum DirEntryView {
    NotADirectory { path: Seq<char> },
    Vanished { cause: Seq<char> },
    Failed { cause: Seq<char> },
    Conf { endpoint_id: Seq<char>, conf: EndpointConfView },
}

impl View for DirEntryRead {
    type V = DirEntryView;

    open spec fn view(&self) -> DirEntryView {
        match self {
            DirEntryRead::NotADirectory { path } => DirEntryView::NotADirectory { path: path@ },
            DirEntryRead::Vanished { cause } => DirEntryView::Vanished { cause: cause@ },
            DirEntryRead::Failed { cause } => DirEntryView::Failed { cause: cause@ },
            DirEntryRead::Conf { endpoint_id, conf } => DirEntryView::Conf {
                endpoint_id: endpoint_id@,
                conf: conf@,
            },
        }
    }
}

impl DeepView for DirEntryRead {
    type V = DirEntryView;

    open spec fn deep_view(&self) -> DirEntryView {
        self@
    }
}

/// The endpoint that a directory entry holds.
pub open spec fn entry_endpoint(entry: DirEntryView, env: LocalEnvView) -> Result<
    EndpointView,
    EndpointErrorView,
> {
    match entry {
        DirEntryView::NotADirectory { path } => Err(EndpointErrorView::NotADirectory { path }),
        DirEntryView::Vanished { cause } => Err(EndpointErrorView::Vanished { cause }),
        DirEntryView::Failed { cause } => Err(EndpointErrorView::Io { cause }),
        DirEntryView::Conf { endpoint_id, conf } => Ok(endpoint_of(endpoint_id, conf, env)),
    }
}

/// The endpoints that the entries of a directory hold, by their ids. An entry that vanished is
/// passed over: somebody else may be deleting endpoints. Any other entry that holds no endpoint
/// is an error, and the first one is the one reported.
pub open spec fn loaded(entries: Seq<DirEntryView>, env: LocalEnvView) -> Result<
    Map<Seq<char>, EndpointView>,
    EndpointErrorView,
>
    decreases entries.len(),
{
    if entries.len() == 0 {
        Ok(Map::empty())
    } else {
        match loaded(entries.drop_last(), env) {
            Err(error) => Err(error),
            Ok(endpoints) => match entry_endpoint(entries.last(), env) {
                Ok(ep) => Ok(endpoints.insert(ep.endpoint_id, ep)),
                Err(EndpointErrorView::Vanished { .. }) => Ok(endpoints),
                Err(error) => Err(error),
            },
        }
    }
}

/// An error among the first entries is the error of them all.
proof fn lemma_load_error_stays(entries: Seq<DirEntryView>, env: LocalEnvView, n: int)
    requires
        0 <= n <= entries.len(),
        loaded(entries.take(n), env) is Err,
    ensures
        loaded(entries, env) == loaded(entries.take(n), env),
    decreases entries.len(),
{
    if n < entries.len() {
        assert(entries.drop_last().take(n) =~= entries.take(n));
        lemma_load_error_stays(entries.drop_last(), env, n);
    } else {
        assert(entries.take(n) =~= entries);
    }
}

/// The larger of two ports.
pub open spec fn larger(a: u16, b: u16) -> u16 {
    if a < b {
        b
    } else {
        a
    }
}

/// The largest port on which an endpoint's Postgres or its external API listens.
pub open spec fn top_port(listing: Seq<EndpointView>) -> Option<u16>
    decreases listing.len(),
{
    if listing.len() == 0 {
        None
    } else {
        let own = larger(listing.last().pg_address.port, listing.last().external_http_address.port);
        match top_port(listing.drop_last()) {
            Some(port) => Some(larger(port, own)),
            None => Some(own),
        }
    }
}

/// All endpoints of an environment.
#[derive(Debug, PartialEq, Eq)]
pub struct ComputeControlPlane {
    /// Ports are handed out from above this one.
    pub base_port: u16,
    pub endpoints: EndpointMap,
    pub env: LocalEnv,
}

/// What a [`ComputeControlPlane`] denotes.
#[verifier::ext_equal]
pub struct PlaneView {
    pub base_port: u16,
    pub endpoints: Seq<EndpointView>,
    pub env: LocalEnvView,
}

impl View for ComputeControlPlane {
    type V = PlaneView;

    open spec fn view(&self) -> PlaneView {
        PlaneView { base_port: self.base_port, endpoints: self.endpoints@, env: self.env@ }
    }
}

/// The ports of a new endpoint.
#[verifier::ext_equal]
pub struct PortsView {
    pub pg: int,
    pub external_http: int,
    pub internal_http: int,
}

impl PlaneView {
    /// The port above all those that are in use.
    pub open spec fn next_port(self) -> int {
        match top_port(self.endpoints) {
            Some(port) => port + 1,
            None => self.base_port + 1,
        }
    }

    /// The ports of a new endpoint: those that are asked for, else the next ones.
    pub open spec fn ports(
        self,
        pg_port: Option<u16>,
        external_http_port: Option<u16>,
        internal_http_port: Option<u16>,
    ) -> PortsView {
        let external_http = match external_http_port {
            Some(port) => port as int,
            None => self.next_port() + 1,
        };
        PortsView {
            pg: match pg_port {
                Some(port) => port as int,
                None => self.next_port(),
            },
            external_http,
            internal_http: match internal_http_port {
                Some(port) => port as int,
                None => external_http + 1,
            },
        }
    }
}

impl PortsView {
    /// Whether there are such ports.
    pub open spec fn exist(self) -> bool {
        self.pg <= u16::MAX && self.external_http <= u16::MAX && self.internal_http <= u16::MAX
    }
}

/// A new endpoint, and what is written to its `endpoint.json`.
#[derive(Debug, PartialEq, Eq)]
pub struct NewEndpoint {
    pub endpoint: Endpoint,
    pub conf: EndpointConf,
}

/// The configuration of a new endpoint. It has no features and no cluster of its own, and its
/// `compute_ctl` takes tokens that verify against `jwks`.
pub open spec fn new_conf(
    endpoint_id: Seq<char>,
    tenant_id: Seq<char>,
    timeline_id: Seq<char>,
    ports: PortsView,
    pg_version: PgMajorVersion,
    mode: ComputeModeView,
    grpc: bool,
    skip_pg_catalog_updates: bool,
    drop_subscriptions_before_start: bool,
    privileged_role_name: Option<Seq<char>>,
    jwks: Seq<JwkView>,
) -> EndpointConfView {
    EndpointConfView {
        endpoint_id,
        tenant_id,
        timeline_id,
        mode,
        pg_port: ports.pg as u16,
        external_http_port: ports.external_http as u16,
        internal_http_port: ports.internal_http as u16,
        pg_version,
        grpc,
        skip_pg_catalog_updates,
        reconfigure_concurrency: 1,
        drop_subscriptions_before_start,
        features: Seq::empty(),
        cluster: None,
        compute_ctl_config: ComputeCtlConfigView { jwks, tls: None },
        privileged_role_name,
    }
}

/// Whether the endpoint is a primary on the timeline.
pub open spec fn is_primary_on(
    ep: EndpointView,
    tenant_id: Seq<char>,
    timeline_id: Seq<char>,
) -> bool {
    ep.tenant_id == tenant_id && ep.timeline_id == timeline_id && ep.mode is Primary
}

/// The endpoints that must be down for an endpoint to run in this mode on this timeline, in the
/// order of their ids. Only primaries exclude each other.
pub open spec fn rivals(
    listing: Seq<EndpointView>,
    mode: ComputeModeView,
    tenant_id: Seq<char>,
    timeline_id: Seq<char>,
) -> Seq<EndpointView> {
    if mode is Primary {
        listing.filter(|ep: EndpointView| is_primary_on(ep, tenant_id, timeline_id))
    } else {
        Seq::empty()
    }
}

/// Whether `statuses` say enough of `count` endpoints to find the first that is not stopped.
pub open spec fn settles(statuses: Seq<EndpointStatus>, count: nat) -> bool {
    ||| statuses.len() == count
    ||| 0 < statuses.len() <= count && statuses.last() != EndpointStatus::Stopped
}

impl Endpoint {
    /// The endpoint that an entry of the directory of endpoints holds.
    pub fn from_dir_entry(entry: DirEntryRead, env: &LocalEnv) -> (r: Result<
        Endpoint,
        EndpointError,
    >)
        ensures
            match r {
                Ok(ep) => entry_endpoint(entry@, env@) == Ok::<_, EndpointErrorView>(ep@),
                Err(error) => entry_endpoint(entry@, env@) == Err::<EndpointView, _>(error@),
            },
    {
        match entry {
            DirEntryRead::NotADirectory { path } => Err(EndpointError::NotADirectory { path }),
            DirEntryRead::Vanished { cause } => Err(EndpointError::Vanished { cause }),
            DirEntryRead::Failed { cause } => Err(EndpointError::Io { cause }),
            DirEntryRead::Conf { endpoint_id, conf } => Ok(
                Endpoint::from_conf(endpoint_id, conf, env),
            ),
        }
    }
}

impl ComputeControlPlane {
    /// The control plane with the endpoints that the entries of the directory of endpoints hold.
    pub fn load(env: LocalEnv, entries: Vec<DirEntryRead>) -> (r: Result<
        ComputeControlPlane,
        EndpointError,
    >)
        ensures
            match r {
                Ok(plane) => {
                    &&& loaded(entries.deep_view(), env@) == Ok::<_, EndpointErrorView>(
                        by_id(plane@.endpoints),
                    )
                    &&& ascending(plane@.endpoints)
                    &&& plane@.base_port == 55431
                    &&& plane@.env == env@
                },
                Err(error) => loaded(entries.deep_view(), env@) == Err::<
                    Map<Seq<char>, EndpointView>,
                    _,
                >(error@),
            },
    {
        let ghost all = entries.deep_view();
        let ghost raw = entries@;
        let mut endpoints = EndpointMap::new();
        for entry in it: entries
            invariant
                it.seq() == raw,
                all == entries.deep_view(),
                all.len() == raw.len(),
                forall|i: int| 0 <= i < raw.len() ==> all[i] == (#[trigger] raw[i])@,
                ascending(endpoints@),
                loaded(all.take(it.index() as int), env@) == Ok::<_, EndpointErrorView>(
                    by_id(endpoints@),
                ),
        {
            let ghost n = it.index() as int;
            proof {
                assert(all.take(n + 1).drop_last() =~= all.take(n));
                assert(all.take(n + 1).last() == entry@);
            }
            match Endpoint::from_dir_entry(entry, &env) {
                Ok(ep) => {
                    endpoints.insert(ep);
                },
                Err(error) => {
                    match error {
                        // A parallel task could delete an endpoint while the directory is scanned.
                        EndpointError::Vanished { .. } => {},
                        error => {
                            proof {
                                lemma_load_error_stays(all, env@, n + 1);
                            }
                            return Err(error);
                        },
                    }
                },
            }
        }
        assert(all.take(all.len() as int) =~= all);
        Ok(ComputeControlPlane { base_port: 55431, endpoints, env })
    }
}

impl ComputeControlPlane {
    /// The largest port on which an endpoint's Postgres or its external API listens.
    fn top_port(&self) -> (r: Option<u16>)
        ensures
            r == top_port(self@.endpoints),
    {
        let listing = self.endpoints.listing();
        let ghost all = self@.endpoints;
        let mut top: Option<u16> = None;
        let mut i: usize = 0;
        while i < listing.len()
            invariant
                i <= listing@.len(),
                all == listing.deep_view(),
                top == top_port(all.take(i as int)),
            decreases listing@.len() - i,
        {
            proof {
                assert(all.take(i + 1).drop_last() =~= all.take(i as int));
                assert(all.take(i + 1).last() == listing@[i as int]@);
            }
            let pg: u16 = listing[i].pg_address.port;
            let external_http: u16 = listing[i].external_http_address.port;
            let own: u16 = if pg < external_http {
                external_http
            } else {
                pg
            };
            top = match top {
                Some(port) => {
                    if port < own {
                        Some(own)
                    } else {
                        Some(port)
                    }
                },
                None => Some(own),
            };
            i = i + 1;
        }
        assert(all.take(all.len() as int) =~= all);
        top
    }

    /// The port above all those that are in use.
    pub fn get_port(&self) -> (r: u16)
        requires
            self@.next_port() <= u16::MAX,
        ensures
            r == self@.next_port(),
    {
        match self.top_port() {
            Some(port) => port + 1,
            None => self.base_port + 1,
        }
    }

    /// Whether the ports that a new endpoint would be given exist.
    pub fn ports_exist(
        &self,
        pg_port: Option<u16>,
        external_http_port: Option<u16>,
        internal_http_port: Option<u16>,
    ) -> (r: bool)
        ensures
            r == self@.ports(pg_port, external_http_port, internal_http_port).exist(),
    {
        let next: u32 = match self.top_port() {
            Some(port) => port as u32 + 1,
            None => self.base_port as u32 + 1,
        };
        let pg: u32 = match pg_port {
            Some(port) => port as u32,
            None => next,
        };
        let external_http: u32 = match external_http_port {
            Some(port) => port as u32,
            None => next + 1,
        };
        let internal_http: u32 = match internal_http_port {
            Some(port) => port as u32,
            None => external_http + 1,
        };
        let max: u32 = u16::MAX as u32;
        pg <= max && external_http <= max && internal_http <= max
    }

    /// Creates the key set for the public key in a PEM block.
    pub fn create_jwks_from_pem(pem: &Pem) -> (r: Result<JwkSet, EndpointError>)
        ensures
            match r {
                Ok(set) => jwks_of(pem.contents@) == Ok::<_, EndpointErrorView>(set@),
                Err(error) => jwks_of(pem.contents@) == Err::<Seq<JwkView>, _>(error@),
            },
    {
        match decode_public_key(pem.contents.as_slice()) {
            Ok(public_key) => {
                let digest = sha256_digest(public_key.as_slice());
                Ok(jwks_for_key(&public_key, &digest))
            },
            Err(cause) => Err(EndpointError::InvalidPublicKey { cause }),
        }
    }

    /// A new endpoint, whose `compute_ctl` takes tokens that verify against `jwks`.
    pub fn endpoint_with_jwks(
        &self,
        endpoint_id: &str,
        tenant_id: TenantId,
        timeline_id: TimelineId,
        pg_port: Option<u16>,
        external_http_port: Option<u16>,
        internal_http_port: Option<u16>,
        pg_version: PgMajorVersion,
        mode: ComputeMode,
        grpc: bool,
        skip_pg_catalog_updates: bool,
        drop_subscriptions_before_start: bool,
        privileged_role_name: Option<String>,
        jwks: JwkSet,
    ) -> (r: NewEndpoint)
        requires
            self@.ports(pg_port, external_http_port, internal_http_port).exist(),
        ensures
            r.conf@ == new_conf(
                endpoint_id@,
                tenant_id@,
                timeline_id@,
                self@.ports(pg_port, external_http_port, internal_http_port),
                pg_version,
                mode@,
                grpc,
                skip_pg_catalog_updates,
                drop_subscriptions_before_start,
                privileged_role_name.deep_view(),
                jwks@,
            ),
            r.endpoint@ == endpoint_of(endpoint_id@, r.conf@, self@.env),
            r.conf@.tenant_id == tenant_id@ && r.endpoint@.tenant_id == tenant_id@,
            r.conf@.timeline_id == timeline_id@ && r.endpoint@.timeline_id == timeline_id@,
            r.conf@.mode == mode@ && r.endpoint@.mode == mode@,
            r.conf@.pg_version == pg_version && r.endpoint@.pg_version == pg_version,
            r.conf@.grpc == grpc && r.endpoint@.grpc == grpc,
    {
        let pg_port: u16 = match pg_port {
            Some(port) => port,
            None => self.get_port(),
        };
        let external_http_port: u16 = match external_http_port {
            Some(port) => port,
            None => self.get_port() + 1,
        };
        let internal_http_port: u16 = match internal_http_port {
            Some(port) => port,
            None => external_http_port + 1,
        };
        let compute_ctl_config = ComputeCtlConfig { jwks, tls: None };
        let endpoint = Endpoint {
            endpoint_id: endpoint_id.to_owned(),
            pg_address: SocketAddress { ip: Ipv4Address::localhost(), port: pg_port },
            external_http_address: SocketAddress {
                ip: Ipv4Address::unspecified(),
                port: external_http_port,
            },
            internal_http_address: SocketAddress {
                ip: Ipv4Address::localhost(),
                port: internal_http_port,
            },
            env: self.env.clone(),
            timeline_id: timeline_id.clone(),
            mode: mode.clone(),
            tenant_id: tenant_id.clone(),
            pg_version,
            // Roles and databases are not set up by the specification here, so that catalog
            // updates are not needed.
            skip_pg_catalog_updates,
            drop_subscriptions_before_start,
            grpc,
            reconfigure_concurrency: 1,
            features: Vec::new(),
            cluster: None,
            compute_ctl_config: compute_ctl_config.clone(),
            privileged_role_name: privileged_role_name.clone(),
        };
        let conf = EndpointConf {
            endpoint_id: endpoint_id.to_owned(),
            tenant_id,
            timeline_id,
            mode,
            pg_port,
            external_http_port,
            internal_http_port,
            pg_version,
            grpc,
            skip_pg_catalog_updates,
            reconfigure_concurrency: 1,
            drop_subscriptions_before_start,
            features: Vec::new(),
            cluster: None,
            compute_ctl_config,
            privileged_role_name,
        };
        assert(conf@.features =~= Seq::<Seq<char>>::empty());
        assert(conf@.compute_ctl_config =~~= (ComputeCtlConfigView { jwks: jwks@, tls: None }));
        assert(endpoint@ =~~= endpoint_of(endpoint_id@, conf@, self@.env));
        NewEndpoint { endpoint, conf }
    }

    /// A new endpoint, whose `compute_ctl` takes tokens that verify against `public_key`. It
    /// belongs to the control plane once its files are written and it is registered.
    pub fn new_endpoint(
        &self,
        endpoint_id: &str,
        tenant_id: TenantId,
        timeline_id: TimelineId,
        pg_port: Option<u16>,
        external_http_port: Option<u16>,
        internal_http_port: Option<u16>,
        pg_version: PgMajorVersion,
        mode: ComputeMode,
        grpc: bool,
        skip_pg_catalog_updates: bool,
        drop_subscriptions_before_start: bool,
        privileged_role_name: Option<String>,
        public_key: &Pem,
    ) -> (r: Result<NewEndpoint, EndpointError>)
        requires
            self@.ports(pg_port, external_http_port, internal_http_port).exist(),
        ensures
            match (jwks_of(public_key.contents@), r) {
                (Ok(jwks), Ok(new)) => {
                    &&& new.conf@ == new_conf(
                        endpoint_id@,
                        tenant_id@,
                        timeline_id@,
                        self@.ports(pg_port, external_http_port, internal_http_port),
                        pg_version,
                        mode@,
                        grpc,
                        skip_pg_catalog_updates,
                        drop_subscriptions_before_start,
                        privileged_role_name.deep_view(),
                        jwks,
                    )
                    &&& new.endpoint@ == endpoint_of(endpoint_id@, new.conf@, self@.env)
                },
                (Err(wanted), Err(error)) => error@ == wanted,
                _ => false,
            },
    {
        match Self::create_jwks_from_pem(public_key) {
            Ok(jwks) => Ok(
                self.endpoint_with_jwks(
                    endpoint_id,
                    tenant_id,
                    timeline_id,
                    pg_port,
                    external_http_port,
                    internal_http_port,
                    pg_version,
                    mode,
                    grpc,
                    skip_pg_catalog_updates,
                    drop_subscriptions_before_start,
                    privileged_role_name,
                    jwks,
                ),
            ),
            Err(error) => Err(error),
        }
    }

    /// Takes an endpoint, whose files are written, into the control plane.
    pub fn register(&mut self, endpoint: Endpoint)
        ensures
            ascending(final(self)@.endpoints),
            by_id(final(self)@.endpoints) == by_id(old(self)@.endpoints).insert(
                endpoint@.endpoint_id,
                endpoint@,
            ),
            final(self)@.base_port == old(self)@.base_port,
            final(self)@.env == old(self)@.env,
    {
        self.endpoints.insert(endpoint);
    }

    /// The endpoints whose status decides whether an endpoint may run in this mode on this
    /// timeline.
    pub fn conflict_candidates(
        &self,
        mode: &ComputeMode,
        tenant_id: &TenantId,
        timeline_id: &TimelineId,
    ) -> (r: Vec<&Endpoint>)
        ensures
            r.deep_view() == rivals(self@.endpoints, mode@, tenant_id@, timeline_id@),
    {
        let listing = self.endpoints.listing();
        let ghost all = self@.endpoints;
        let ghost pred = |ep: EndpointView| is_primary_on(ep, tenant_id@, timeline_id@);
        let mut r: Vec<&Endpoint> = Vec::new();
        assert(r.deep_view() =~= Seq::<EndpointView>::empty());
        if mode.is_primary() {
            let mut i: usize = 0;
            proof {
                reveal(Seq::filter);
            }
            while i < listing.len()
                invariant
                    i <= listing@.len(),
                    all == listing.deep_view(),
                    pred == (|ep: EndpointView| is_primary_on(ep, tenant_id@, timeline_id@)),
                    r.deep_view() == all.take(i as int).filter(pred),
                decreases listing@.len() - i,
            {
                let ep = &listing[i];
                proof {
                    reveal(Seq::filter);
                    assert(all.take(i + 1).drop_last() =~= all.take(i as int));
                    assert(all.take(i + 1).last() == ep@);
                }
                let ghost before = r.deep_view();
                if ep.tenant_id.text == tenant_id.text && ep.timeline_id.text == timeline_id.text
                    && ep.mode.is_primary() {
                    r.push(ep);
                    assert(r.deep_view() =~= before.push(ep@));
                }
                i = i + 1;
            }
            assert(all.take(all.len() as int) =~= all);
        }
        r
    }

    /// Refuses an endpoint that is not to run beside those that are up: a second primary on a
    /// timeline. `statuses` are those of [`Self::conflict_candidates`], in order, as far as the
    /// first that is not stopped.
    pub fn check_conflicting_endpoints(
        &self,
        mode: &ComputeMode,
        tenant_id: &TenantId,
        timeline_id: &TimelineId,
        statuses: &Vec<EndpointStatus>,
    ) -> (r: Result<(), EndpointError>)
        requires
            settles(
                statuses@,
                rivals(self@.endpoints, mode@, tenant_id@, timeline_id@).len(),
            ),
        ensures
            r is Ok <==> (forall|i: int|
                0 <= i < statuses@.len() ==> #[trigger] statuses@[i] == EndpointStatus::Stopped),
            r matches Err(error) ==> (exists|i: int| #[trigger]
                is_first_up(statuses@, i) && error@ == (EndpointErrorView::DuplicatePrimary {
                    tenant_id: tenant_id@,
                    timeline_id: timeline_id@,
                    endpoint_id: rivals(
                        self@.endpoints,
                        mode@,
                        tenant_id@,
                        timeline_id@,
                    )[i].endpoint_id,
                })),
    {
        let candidates = self.conflict_candidates(mode, tenant_id, timeline_id);
        let ghost all = rivals(self@.endpoints, mode@, tenant_id@, timeline_id@);
        let mut i: usize = 0;
        while i < statuses.len()
            invariant
                i <= statuses@.len(),
                statuses@.len() <= candidates@.len(),
                all == candidates.deep_view(),
                forall|j: int|
                    0 <= j < i ==> #[trigger] statuses@[j] == EndpointStatus::Stopped,
                all == rivals(self@.endpoints, mode@, tenant_id@, timeline_id@),
            decreases statuses@.len() - i,
        {
            if statuses[i] != EndpointStatus::Stopped {
                assert(is_first_up(statuses@, i as int));
                assert(all[i as int] == candidates@[i as int]@);
                return Err(
                    EndpointError::DuplicatePrimary {
                        tenant_id: tenant_id.clone(),
                        timeline_id: timeline_id.clone(),
                        endpoint_id: candidates[i].endpoint_id.clone(),
                    },
                );
            }
            i = i + 1;
        }
        Ok(())
    }
}

/// Whether the `i`-th of some endpoints is the first that is not stopped.
pub open spec fn is_first_up(statuses: Seq<EndpointStatus>, i: int) -> bool {
    &&& 0 <= i < statuses.len()
    &&& statuses[i] != EndpointStatus::Stopped
    &&& forall|j: int| 0 <= j < i ==> #[trigger] statuses[j] == EndpointStatus::Stopped
}

/// The top port is at least every port that it is taken from.
pub(crate) proof fn lemma_top_port(listing: Seq<EndpointView>, i: int)
    requires
        0 <= i < listing.len(),
    ensures
        top_port(listing) is Some,
        listing[i].pg_address.port <= top_port(listing)->0,
        listing[i].external_http_address.port <= top_port(listing)->0,
    decreases listing.len(),
{
    if i < listing.len() - 1 {
        lemma_top_port(listing.drop_last(), i);
        assert(listing.drop_last()[i] == listing[i]);
    }
}

/// The ports that a new endpoint is given by default are different from each other, and lie above
/// every port on which another endpoint's Postgres or external API listens.
pub proof fn law_default_ports_are_fresh(plane: PlaneView)
    ensures
        ({
            let ports = plane.ports(None, None, None);
            &&& ports.pg < ports.external_http < ports.internal_http
            &&& forall|i: int|
                0 <= i < plane.endpoints.len() ==> (#[trigger] plane.endpoints[i]).pg_address.port
                    < ports.pg && plane.endpoints[i].external_http_address.port < ports.pg
        }),
{
    let ports = plane.ports(None, None, None);
    assert forall|i: int| 0 <= i < plane.endpoints.len() implies (
    #[trigger] plane.endpoints[i]).pg_address.port < ports.pg
        && plane.endpoints[i].external_http_address.port < ports.pg by {
        lemma_top_port(plane.endpoints, i);
    }
}

/// The top port is one of the ports that it is taken from.
pub(crate) proof fn lemma_top_port_is_used(listing: Seq<EndpointView>) -> (i: int)
    requires
        listing.len() > 0,
    ensures
        0 <= i < listing.len(),
        top_port(listing) == Some(
            larger(listing[i].pg_address.port, listing[i].external_http_address.port),
        ),
    decreases listing.len(),
{
    let last = listing.len() - 1;
    let own = larger(listing[last].pg_address.port, listing[last].external_http_address.port);
    if last == 0 {
        assert(listing.drop_last().len() == 0);
        assert(top_port(listing.drop_last()) is None);
        last
    } else {
        let i = lemma_top_port_is_used(listing.drop_last());
        assert(listing.drop_last()[i] == listing[i]);
        if top_port(listing.drop_last())->0 < own {
            last
        } else {
            i
        }
    }
}

/// Registering an endpoint with a new id beside others never lowers the next port: it is raised
/// above the new endpoint's ports, if it was not there already.
pub proof fn law_next_port_does_not_fall(before: PlaneView, after: PlaneView, ep: EndpointView)
    requires
        ascending(before.endpoints),
        ascending(after.endpoints),
        before.endpoints.len() > 0,
        !by_id(before.endpoints).contains_key(ep.endpoint_id),
        by_id(after.endpoints) == by_id(before.endpoints).insert(ep.endpoint_id, ep),
    ensures
        before.next_port() <= after.next_port(),
        after.next_port() == ({
            let own = larger(ep.pg_address.port, ep.external_http_address.port);
            if before.next_port() <= own {
                own + 1
            } else {
                before.next_port()
            }
        }),
{
    let old_map = by_id(before.endpoints);
    let new_map = by_id(after.endpoints);
    // The new endpoint is among those that count now.
    assert(new_map.contains_key(ep.endpoint_id));
    let k = choose|k: int|
        0 <= k < after.endpoints.len() && (#[trigger] after.endpoints[k]).endpoint_id
            == ep.endpoint_id;
    lemma_by_id(after.endpoints, k);
    assert(after.endpoints[k] == ep);
    lemma_top_port(after.endpoints, k);
    // So is the one that had the top port before.
    let i = lemma_top_port_is_used(before.endpoints);
    let id = before.endpoints[i].endpoint_id;
    lemma_by_id(before.endpoints, i);
    assert(new_map.contains_key(id) && new_map[id] == before.endpoints[i]);
    let j = choose|j: int|
        0 <= j < after.endpoints.len() && (#[trigger] after.endpoints[j]).endpoint_id == id;
    lemma_by_id(after.endpoints, j);
    lemma_top_port(after.endpoints, j);
    // And the one that has it now is the new one or counted before.
    let t = lemma_top_port_is_used(after.endpoints);
    let top = after.endpoints[t].endpoint_id;
    lemma_by_id(after.endpoints, t);
    if top != ep.endpoint_id {
        assert(old_map.contains_key(top) && old_map[top] == after.endpoints[t]);
        let u = choose|u: int|
            0 <= u < before.endpoints.len() && (#[trigger] before.endpoints[u]).endpoint_id == top;
        lemma_by_id(before.endpoints, u);
        lemma_top_port(before.endpoints, u);
    } else {
        assert(after.endpoints[t] == ep);
    }
}

/// A new endpoint is found again when the endpoints are loaded from their directories: loading
/// with its `endpoint.json` gives what registering it gives.
pub proof fn law_new_endpoint_survives_reload(
    entries: Seq<DirEntryView>,
    plane: PlaneView,
    conf: EndpointConfView,
)
    requires
        loaded(entries, plane.env) == Ok::<_, EndpointErrorView>(by_id(plane.endpoints)),
    ensures
        loaded(
            entries.push(DirEntryView::Conf { endpoint_id: conf.endpoint_id, conf }),
            plane.env,
        ) == Ok::<_, EndpointErrorView>(
            by_id(plane.endpoints).insert(
                conf.endpoint_id,
                endpoint_of(conf.endpoint_id, conf, plane.env),
            ),
        ),
{
    let entry = DirEntryView::Conf { endpoint_id: conf.endpoint_id, conf };
    assert(entries.push(entry).drop_last() =~= entries);
}

/// Whether no two entries are of the same directory.
pub open spec fn distinct_entries(entries: Seq<DirEntryView>) -> bool {
    forall|i: int, j: int|
        0 <= i < j < entries.len() && #[trigger] entries[i] is Conf && #[trigger] entries[j] is Conf
            ==> entries[i]->endpoint_id != entries[j]->endpoint_id
}

/// Whether some entry is the configuration of the endpoint `id`.
pub open spec fn has_conf(entries: Seq<DirEntryView>, id: Seq<char>) -> bool {
    exists|i: int|
        0 <= i < entries.len() && #[trigger] entries[i] is Conf && entries[i]->endpoint_id == id
}

/// It does not matter in which order a directory lists its entries: there is one endpoint for
/// each configuration that was read, and no other.
pub proof fn law_load_takes_every_conf(entries: Seq<DirEntryView>, env: LocalEnvView)
    requires
        distinct_entries(entries),
        loaded(entries, env) is Ok,
    ensures
        forall|id: Seq<char>| #[trigger]
            loaded(entries, env)->Ok_0.contains_key(id) <==> has_conf(entries, id),
        forall|i: int|
            0 <= i < entries.len() && #[trigger] entries[i] is Conf ==> loaded(
                entries,
                env,
            )->Ok_0[entries[i]->endpoint_id] == endpoint_of(
                entries[i]->endpoint_id,
                entries[i]->conf,
                env,
            ),
    decreases entries.len(),
{
    if entries.len() > 0 {
        let before = entries.drop_last();
        assert forall|i: int, j: int|
            0 <= i < j < before.len() && #[trigger] before[i] is Conf && #[trigger] before[j] is Conf
            implies before[i]->endpoint_id != before[j]->endpoint_id by {
            assert(entries[i] == before[i] && entries[j] == before[j]);
        }
        law_load_takes_every_conf(before, env);
        let map = loaded(entries, env)->Ok_0;
        let last = entries.len() - 1;
        assert forall|id: Seq<char>| #[trigger] map.contains_key(id) <==> has_conf(entries, id) by {
            if has_conf(before, id) {
                let i = choose|i: int|
                    0 <= i < before.len() && #[trigger] before[i] is Conf && before[i]->endpoint_id
                        == id;
                assert(entries[i] is Conf && entries[i]->endpoint_id == id);
            }
            if has_conf(entries, id) {
                let i = choose|i: int|
                    0 <= i < entries.len() && #[trigger] entries[i] is Conf
                        && entries[i]->endpoint_id == id;
                if i < last {
                    assert(before[i] is Conf && before[i]->endpoint_id == id);
                }
            }
            if entries[last] is Conf && entries[last]->endpoint_id == id {
                assert(has_conf(entries, id));
            }
        }
        assert forall|i: int| 0 <= i < entries.len() && #[trigger] entries[i] is Conf implies map[
        entries[i]->endpoint_id] == endpoint_of(
            entries[i]->endpoint_id,
            entries[i]->conf,
            env,
        ) by {
            if i < last {
                assert(before[i] == entries[i]);
                assert(has_conf(before, entries[i]->endpoint_id));
            }
        }
    }
}

/// An endpoint that vanishes while the directory is scanned does not disturb the others.
pub proof fn law_vanished_entries_do_not_matter(entries: Seq<DirEntryView>, env: LocalEnvView)
    ensures
        loaded(entries, env) == loaded(
            entries.filter(|entry: DirEntryView| !(entry is Vanished)),
            env,
        ),
    decreases entries.len(),
{
    reveal(Seq::filter);
    if entries.len() > 0 {
        let before = entries.drop_last();
        law_vanished_entries_do_not_matter(before, env);
        let kept = before.filter(|entry: DirEntryView| !(entry is Vanished));
        if !(entries.last() is Vanished) {
            assert(kept.push(entries.last()).drop_last() =~= kept);
        }
    }
}

/// An endpoint stands in the way of a new primary exactly if it is a primary on the same
/// timeline, and nothing stands in the way of any other mode.
pub proof fn law_only_primaries_conflict(
    listing: Seq<EndpointView>,
    mode: ComputeModeView,
    tenant_id: Seq<char>,
    timeline_id: Seq<char>,
)
    ensures
        forall|ep: EndpointView| #[trigger]
            rivals(listing, mode, tenant_id, timeline_id).contains(ep) <==> mode is Primary
                && listing.contains(ep) && is_primary_on(ep, tenant_id, timeline_id),
    decreases listing.len(),
{
    reveal(Seq::filter);
    if listing.len() > 0 {
        let before = listing.drop_last();
        law_only_primaries_conflict(before, mode, tenant_id, timeline_id);
        let short = rivals(before, mode, tenant_id, timeline_id);
        let all = rivals(listing, mode, tenant_id, timeline_id);
        assert forall|ep: EndpointView| #[trigger] all.contains(ep) <==> mode is Primary
            && listing.contains(ep) && is_primary_on(ep, tenant_id, timeline_id) by {
            assert(listing =~= before.push(listing.last()));
            vstd::seq_lib::lemma_seq_contains_after_push(before, listing.last(), ep);
            vstd::seq_lib::lemma_seq_contains_after_push(short, listing.last(), ep);
            assert(short.contains(ep) <==> mode is Primary && before.contains(ep)
                && is_primary_on(ep, tenant_id, timeline_id));
        }
    }
}

/// The statuses of some endpoints, in order.
pub open spec fn statuses_of(
    endpoints: Seq<EndpointView>,
    status: spec_fn(Seq<char>) -> EndpointStatus,
) -> Seq<EndpointStatus> {
    endpoints.map_values(|ep: EndpointView| status(ep.endpoint_id))
}

/// The rivals are listed in the order of their ids, as the endpoints are.
pub(crate) proof fn lemma_rivals_ascend(
    listing: Seq<EndpointView>,
    mode: ComputeModeView,
    tenant_id: Seq<char>,
    timeline_id: Seq<char>,
)
    requires
        ascending(listing),
    ensures
        ascending(rivals(listing, mode, tenant_id, timeline_id)),
    decreases listing.len(),
{
    reveal(Seq::filter);
    if listing.len() > 0 {
        let before = listing.drop_last();
        assert forall|i: int, j: int| 0 <= i < j < before.len() implies text_before(
            (#[trigger] before[i]).endpoint_id,
            (#[trigger] before[j]).endpoint_id,
        ) by {
            assert(listing[i] == before[i] && listing[j] == before[j]);
        }
        lemma_rivals_ascend(before, mode, tenant_id, timeline_id);
        law_only_primaries_conflict(before, mode, tenant_id, timeline_id);
        let short = rivals(before, mode, tenant_id, timeline_id);
        let all = rivals(listing, mode, tenant_id, timeline_id);
        assert(all == short || all == short.push(listing.last()));
        assert forall|i: int, j: int| 0 <= i < j < all.len() implies text_before(
            (#[trigger] all[i]).endpoint_id,
            (#[trigger] all[j]).endpoint_id,
        ) by {
            assert(all[i] == short[i]);
            if j < short.len() {
                assert(all[j] == short[j]);
            } else {
                assert(short.contains(short[i]));
                let k = choose|k: int| 0 <= k < before.len() && before[k] == short[i];
                assert(listing[k] == short[i] && listing[listing.len() - 1] == all[j]);
            }
        }
    }
}

/// Among some endpoints of which one is not stopped there is a first that is not.
proof fn lemma_first_up(statuses: Seq<EndpointStatus>, k: int) -> (i: int)
    requires
        0 <= k < statuses.len(),
        statuses[k] != EndpointStatus::Stopped,
    ensures
        i <= k,
        is_first_up(statuses, i),
    decreases k,
{
    if forall|j: int| 0 <= j < k ==> #[trigger] statuses[j] == EndpointStatus::Stopped {
        k
    } else {
        let j = choose|j: int|
            0 <= j < k && #[trigger] statuses[j] != EndpointStatus::Stopped;
        lemma_first_up(statuses, j)
    }
}

/// Of the endpoints that are in the way, the one with the least id is named.
pub proof fn law_least_rival_is_named(
    listing: Seq<EndpointView>,
    mode: ComputeModeView,
    tenant_id: Seq<char>,
    timeline_id: Seq<char>,
    status: spec_fn(Seq<char>) -> EndpointStatus,
    i: int,
)
    requires
        ascending(listing),
        is_first_up(statuses_of(rivals(listing, mode, tenant_id, timeline_id), status), i),
    ensures
        ({
            let all = rivals(listing, mode, tenant_id, timeline_id);
            forall|ep: EndpointView| #[trigger]
                all.contains(ep) && status(ep.endpoint_id) != EndpointStatus::Stopped ==> ep
                    == all[i] || text_before(all[i].endpoint_id, ep.endpoint_id)
        }),
{
    let all = rivals(listing, mode, tenant_id, timeline_id);
    let statuses = statuses_of(all, status);
    lemma_rivals_ascend(listing, mode, tenant_id, timeline_id);
    assert forall|ep: EndpointView| #[trigger]
        all.contains(ep) && status(ep.endpoint_id) != EndpointStatus::Stopped implies ep == all[i]
        || text_before(all[i].endpoint_id, ep.endpoint_id) by {
        let k = choose|k: int| 0 <= k < all.len() && all[k] == ep;
        assert(statuses[k] == status(ep.endpoint_id));
        if k < i {
            assert(statuses[k] == EndpointStatus::Stopped);
        } else if i < k {
            assert(text_before(all[i].endpoint_id, all[k].endpoint_id));
        }
    }
}

/// A conflict among some endpoints stays one when there are more: an endpoint is named then too,
/// the same one or one that sorts before it.
pub proof fn law_conflict_stays_among_more(
    fewer: Seq<EndpointView>,
    more: Seq<EndpointView>,
    mode: ComputeModeView,
    tenant_id: Seq<char>,
    timeline_id: Seq<char>,
    status: spec_fn(Seq<char>) -> EndpointStatus,
    i: int,
)
    requires
        ascending(fewer),
        ascending(more),
        forall|ep: EndpointView| #[trigger] fewer.contains(ep) ==> more.contains(ep),
        is_first_up(statuses_of(rivals(fewer, mode, tenant_id, timeline_id), status), i),
    ensures
        ({
            let named = rivals(fewer, mode, tenant_id, timeline_id)[i].endpoint_id;
            let all = rivals(more, mode, tenant_id, timeline_id);
            exists|j: int| #[trigger]
                is_first_up(statuses_of(all, status), j) && (all[j].endpoint_id == named
                    || text_before(all[j].endpoint_id, named))
        }),
{
    let some = rivals(fewer, mode, tenant_id, timeline_id);
    let all = rivals(more, mode, tenant_id, timeline_id);
    let statuses = statuses_of(all, status);
    law_only_primaries_conflict(fewer, mode, tenant_id, timeline_id);
    law_only_primaries_conflict(more, mode, tenant_id, timeline_id);
    lemma_rivals_ascend(more, mode, tenant_id, timeline_id);
    assert(statuses_of(some, status)[i] == status(some[i].endpoint_id));
    assert(some.contains(some[i]));
    assert(fewer.contains(some[i]));
    assert(all.contains(some[i]));
    let k = choose|k: int| 0 <= k < all.len() && all[k] == some[i];
    assert(statuses[k] == status(some[i].endpoint_id));
    let j = lemma_first_up(statuses, k);
    assert(is_first_up(statuses, j));
    if j < k {
        assert(text_before(all[j].endpoint_id, all[k].endpoint_id));
    }
}

} // verus!
