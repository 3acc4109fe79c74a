//! Connection info worked out from what is known about pageservers.
use vstd::prelude::*;
use vstd::string::*;

use crate::address::{host_port, write_host_port};
use crate::conninfo::{
    ConnectionInfoView, PageserverConnectionInfo, PageserverProtocol,
    PageserverShardConnectionInfo, PageserverShardInfo, ShardConnectionView, ShardMap, ShardUrl,
};
use crate::error::{EndpointError, EndpointErrorView};
use crate::ids::{
    unsharded_index, NodeId, ShardCount, ShardIndex, ShardNumber, ShardStripeSize, TenantId,
};
use crate::text::{joined, separated};

verus! {

/// The port on which a pageserver listens for libpq clients unless told otherwise.
pub const DEFAULT_PG_PORT: u16 = 5432;

/// A host, as it is written in URLs, and the port that was given with it.
#[derive(Debug, PartialEq, Eq)]
pub struct HostPort {
    pub host: String,
    pub port: Option<u16>,
}

/// What a [`HostPort`] denotes.
#[verifier::ext_equal]
pub struct HostPortView {
    pub host: Seq<char>,
    pub port: Option<u16>,
}

impl View for HostPort {
    type V = HostPortView;

    open spec fn view(&self) -> HostPortView {
        HostPortView { host: self.host@, port: self.port }
    }
}

/// What parsing an address came to.
pub open spec fn parsed(r: Result<HostPort, String>) -> Result<HostPortView, Seq<char>> {
    match r {
        Ok(address) => Ok(address@),
        Err(cause) => Err(cause@),
    }
}

/// A pageserver's configuration with its addresses parsed, or the reasons why they do not parse.
#[derive(Debug, PartialEq, Eq)]
pub struct PageServerConf {
    pub id: NodeId,
    pub listen_pg_addr: Result<HostPort, String>,
    pub listen_grpc_addr: Option<Result<HostPort, String>>,
}

/// What a [`PageServerConf`] denotes.
#[verifier::ext_equal]
pub struct PageServerConfView {
    pub id: NodeId,
    pub listen_pg_addr: Result<HostPortView, Seq<char>>,
    pub listen_grpc_addr: Option<Result<HostPortView, Seq<char>>>,
}

impl View for PageServerConf {
    type V = PageServerConfView;

    open spec fn view(&self) -> PageServerConfView {
        PageServerConfView {
            id: self.id,
            listen_pg_addr: parsed(self.listen_pg_addr),
            listen_grpc_addr: match self.listen_grpc_addr {
                Some(r) => Some(parsed(r)),
                None => None,
            },
        }
    }
}

/// The URL of a pageserver for libpq clients.
pub open spec fn libpq_url(host: Seq<char>, port: u16) -> Seq<char> {
    "postgres://no_user@"@ + host_port(host, port)
}

/// The URL of a pageserver for gRPC clients.
pub open spec fn grpc_url(host: Seq<char>, port: u16) -> Seq<char> {
    "grpc://no_user@"@ + host_port(host, port)
}

/// The port of an address, or a default.
pub open spec fn port_or(port: Option<u16>, default: u16) -> u16 {
    match port {
        Some(port) => port,
        None => default,
    }
}

fn write_libpq_url(host: &str, port: u16) -> (s: String)
    ensures
        s@ == libpq_url(host@, port),
{
    let mut s = "postgres://no_user@".to_owned();
    s.append(write_host_port(host, port).as_str());
    s
}

fn write_grpc_url(host: &str, port: u16) -> (s: String)
    ensures
        s@ == grpc_url(host@, port),
{
    let mut s = "grpc://no_user@".to_owned();
    s.append(write_host_port(host, port).as_str());
    s
}

/// The connection info for a tenant that is not sharded and lives on one pageserver.
pub open spec fn single_pageserver(pageserver: ShardConnectionView) -> ConnectionInfoView {
    ConnectionInfoView {
        shard_count: ShardCount(0),
        stripe_size: None,
        shards: Map::empty().insert(unsharded_index(), seq![pageserver]),
        prefer_protocol: PageserverProtocol::Libpq,
    }
}

/// The connection info for a tenant on a given pageserver, or the first address that does not
/// parse: the libpq address is looked at before the gRPC address.
pub open spec fn local_conn_info(conf: PageServerConfView, default_grpc_port: u16) -> Result<
    ConnectionInfoView,
    EndpointErrorView,
> {
    match conf.listen_pg_addr {
        Err(cause) => Err(EndpointErrorView::BadAddress { cause }),
        Ok(pg) => {
            let libpq = Some(libpq_url(pg.host, port_or(pg.port, DEFAULT_PG_PORT)));
            match conf.listen_grpc_addr {
                None => Ok(
                    single_pageserver(
                        ShardConnectionView { id: Some(conf.id), libpq_url: libpq, grpc_url: None },
                    ),
                ),
                Some(Err(cause)) => Err(EndpointErrorView::BadAddress { cause }),
                Some(Ok(grpc)) => Ok(
                    single_pageserver(
                        ShardConnectionView {
                            id: Some(conf.id),
                            libpq_url: libpq,
                            grpc_url: Some(
                                grpc_url(grpc.host, port_or(grpc.port, default_grpc_port)),
                            ),
                        },
                    ),
                ),
            }
        },
    }
}

/// The connection info for a tenant of which the caller says which pageserver to use. Such a
/// tenant is not managed by the storage controller, and therefore not sharded.
/// `default_grpc_port` is where pageservers listen for gRPC clients unless told otherwise.
pub fn local_pageserver_conf_to_conn_info(
    conf: &PageServerConf,
    default_grpc_port: u16,
) -> (r: Result<PageserverConnectionInfo, EndpointError>)
    ensures
        match r {
            Ok(info) => local_conn_info(conf@, default_grpc_port) == Ok::<_, EndpointErrorView>(
                info@,
            ),
            Err(error) => local_conn_info(conf@, default_grpc_port) == Err::<
                ConnectionInfoView,
                _,
            >(error@),
        },
{
    let libpq = match &conf.listen_pg_addr {
        Ok(address) => {
            let port: u16 = match address.port {
                Some(port) => port,
                None => DEFAULT_PG_PORT,
            };
            Some(write_libpq_url(address.host.as_str(), port))
        },
        Err(cause) => {
            return Err(EndpointError::BadAddress { cause: cause.clone() });
        },
    };
    let grpc = match &conf.listen_grpc_addr {
        Some(Ok(address)) => {
            let port: u16 = match address.port {
                Some(port) => port,
                None => default_grpc_port,
            };
            Some(write_grpc_url(address.host.as_str(), port))
        },
        Some(Err(cause)) => {
            return Err(EndpointError::BadAddress { cause: cause.clone() });
        },
        None => None,
    };
    let pageserver = PageserverShardConnectionInfo {
        id: Some(conf.id),
        libpq_url: libpq,
        grpc_url: grpc,
    };
    let ghost seen = pageserver.deep_view();
    let mut pageservers: Vec<PageserverShardConnectionInfo> = Vec::new();
    pageservers.push(pageserver);
    let shard_info = PageserverShardInfo { pageservers };
    assert(shard_info@ =~= seq![seen]);
    let shards = ShardMap::new().insert(ShardIndex::unsharded(), shard_info);
    Ok(
        PageserverConnectionInfo {
            shard_count: ShardCount::unsharded(),
            stripe_size: None,
            shards,
            prefer_protocol: PageserverProtocol::default(),
        },
    )
}

/// A shard, with the tenant it belongs to.
#[derive(Debug, PartialEq, Eq)]
pub struct TenantShardId {
    pub tenant_id: TenantId,
    pub shard_number: ShardNumber,
    pub shard_count: ShardCount,
}

impl TenantShardId {
    /// The shard among the shards of its tenant.
    pub open spec fn index(self) -> ShardIndex {
        ShardIndex { shard_number: self.shard_number, shard_count: self.shard_count }
    }

    /// The shard among the shards of its tenant.
    pub fn to_index(&self) -> (r: ShardIndex)
        ensures
            r == self.index(),
    {
        ShardIndex { shard_number: self.shard_number, shard_count: self.shard_count }
    }
}

/// Where the storage controller says that one shard is.
#[derive(Debug, PartialEq, Eq)]
pub struct TenantLocateResponseShard {
    pub shard_id: TenantShardId,
    pub node_id: NodeId,
    pub listen_pg_addr: String,
    pub listen_pg_port: u16,
    pub listen_grpc_addr: Option<String>,
    pub listen_grpc_port: Option<u16>,
}

/// What a [`TenantLocateResponseShard`] denotes.
#[verifier::ext_equal]
pub struct LocatedShardView {
    pub index: ShardIndex,
    pub node_id: NodeId,
    pub listen_pg_addr: Seq<char>,
    pub listen_pg_port: u16,
    pub listen_grpc_addr: Option<Seq<char>>,
    pub listen_grpc_port: Option<u16>,
}

impl DeepView for TenantLocateResponseShard {
    type V = LocatedShardView;

    open spec fn deep_view(&self) -> LocatedShardView {
        LocatedShardView {
            index: self.shard_id.index(),
            node_id: self.node_id,
            listen_pg_addr: self.listen_pg_addr@,
            listen_pg_port: self.listen_pg_port,
            listen_grpc_addr: self.listen_grpc_addr.deep_view(),
            listen_grpc_port: self.listen_grpc_port,
        }
    }
}

impl LocatedShardView {
    /// A shard that has a gRPC address has a gRPC port.
    pub open spec fn valid(self) -> bool {
        self.listen_grpc_addr is Some ==> self.listen_grpc_port is Some
    }

    /// How to reach the shard's pageserver.
    pub open spec fn connection(self) -> ShardConnectionView {
        ShardConnectionView {
            id: Some(self.node_id),
            libpq_url: Some(libpq_url(self.listen_pg_addr, self.listen_pg_port)),
            grpc_url: match self.listen_grpc_addr {
                Some(host) => Some(grpc_url(host, self.listen_grpc_port->0)),
                None => None,
            },
        }
    }
}

/// How a tenant is sharded.
#[derive(Clone, Copy, Debug, PartialEq, Eq, Structural)]
pub struct ShardParameters {
    pub count: ShardCount,
    pub stripe_size: ShardStripeSize,
}

/// Where the storage controller says that the shards of a tenant are.
#[derive(Debug, PartialEq, Eq)]
pub struct TenantLocateResponse {
    pub shards: Vec<TenantLocateResponseShard>,
    pub shard_params: ShardParameters,
}

/// What a [`TenantLocateResponse`] denotes.
#[verifier::ext_equal]
pub struct TenantLocateView {
    pub shards: Seq<LocatedShardView>,
    pub shard_params: ShardParameters,
}

impl View for TenantLocateResponse {
    type V = TenantLocateView;

    open spec fn view(&self) -> TenantLocateView {
        TenantLocateView { shards: self.shards.deep_view(), shard_params: self.shard_params }
    }
}

/// One pageserver for each shard that is listed. A shard that is listed again is where its last
/// mention says.
pub open spec fn located(shards: Seq<LocatedShardView>) -> Map<ShardIndex, Seq<ShardConnectionView>>
    decreases shards.len(),
{
    if shards.len() == 0 {
        Map::empty()
    } else {
        located(shards.drop_last()).insert(shards.last().index, seq![shards.last().connection()])
    }
}

impl TenantLocateView {
    /// Every shard that has a gRPC address has a gRPC port.
    pub open spec fn valid(self) -> bool {
        forall|i: int| 0 <= i < self.shards.len() ==> (#[trigger] self.shards[i]).valid()
    }

    /// The connection info that the response amounts to.
    pub open spec fn conn_info(self) -> ConnectionInfoView {
        ConnectionInfoView {
            shard_count: self.shard_params.count,
            stripe_size: if self.shard_params.count.0 == 0 {
                None
            } else {
                Some(self.shard_params.stripe_size)
            },
            shards: located(self.shards),
            prefer_protocol: PageserverProtocol::Libpq,
        }
    }
}

/// The connection info for a tenant that the storage controller has located.
pub fn tenant_locate_response_to_conn_info(response: &TenantLocateResponse) -> (r: Result<
    PageserverConnectionInfo,
    EndpointError,
>)
    requires
        response@.valid(),
    ensures
        r matches Ok(info) && info@ == response@.conn_info(),
{
    let ghost all = response@.shards;
    let mut shards = ShardMap::new();
    let mut i: usize = 0;
    while i < response.shards.len()
        invariant
            i <= response.shards@.len(),
            all == response@.shards,
            response@.valid(),
            shards@ == located(all.take(i as int)),
        decreases response.shards@.len() - i,
    {
        let shard = &response.shards[i];
        let ghost view = shard.deep_view();
        assert(all[i as int] == view);
        assert(view.valid());
        let libpq = Some(write_libpq_url(shard.listen_pg_addr.as_str(), shard.listen_pg_port));
        let grpc = match &shard.listen_grpc_addr {
            Some(host) => {
                let port: u16 = shard.listen_grpc_port.unwrap();
                Some(write_grpc_url(host.as_str(), port))
            },
            None => None,
        };
        let pageserver = PageserverShardConnectionInfo {
            id: Some(shard.node_id),
            libpq_url: libpq,
            grpc_url: grpc,
        };
        assert(pageserver.deep_view() =~= view.connection());
        let mut pageservers: Vec<PageserverShardConnectionInfo> = Vec::new();
        pageservers.push(pageserver);
        let shard_info = PageserverShardInfo { pageservers };
        assert(shard_info@ =~= seq![view.connection()]);
        shards = shards.insert(shard.shard_id.to_index(), shard_info);
        proof {
            let longer = all.take(i + 1);
            assert(longer.drop_last() =~= all.take(i as int));
            assert(longer.last() == view);
        }
        i = i + 1;
    }
    assert(all.take(all.len() as int) =~= all);
    let stripe_size = if response.shard_params.count.is_unsharded() {
        None
    } else {
        Some(response.shard_params.stripe_size)
    };
    Ok(
        PageserverConnectionInfo {
            shard_count: response.shard_params.count,
            stripe_size,
            shards,
            prefer_protocol: PageserverProtocol::default(),
        },
    )
}

/// The last mention of a shard in a list, if there is one.
pub open spec fn last_mention(shards: Seq<LocatedShardView>, index: ShardIndex) -> Option<
    LocatedShardView,
>
    decreases shards.len(),
{
    if shards.len() == 0 {
        None
    } else if shards.last().index == index {
        Some(shards.last())
    } else {
        last_mention(shards.drop_last(), index)
    }
}

/// A located tenant has an entry exactly for the shards that the response mentions, with one
/// pageserver, the one of the shard's last mention.
pub proof fn law_located_shards(shards: Seq<LocatedShardView>, index: ShardIndex)
    ensures
        located(shards).contains_key(index) <==> last_mention(shards, index) is Some,
        last_mention(shards, index) matches Some(shard) ==> located(shards)[index] == seq![
            shard.connection(),
        ],
    decreases shards.len(),
{
    if shards.len() > 0 {
        law_located_shards(shards.drop_last(), index);
    }
}

/// Whether no shard is listed twice.
pub open spec fn listed_once(shards: Seq<LocatedShardView>) -> bool {
    forall|i: int, j: int|
        0 <= i < j < shards.len() ==> (#[trigger] shards[i]).index != (#[trigger] shards[j]).index
}

/// The last mention of a shard is one of its mentions, and is there if the shard is mentioned.
proof fn lemma_last_mention(shards: Seq<LocatedShardView>, index: ShardIndex)
    ensures
        match last_mention(shards, index) {
            Some(shard) => shards.contains(shard) && shard.index == index,
            None => forall|shard: LocatedShardView| #[trigger]
                shards.contains(shard) ==> shard.index != index,
        },
    decreases shards.len(),
{
    if shards.len() > 0 {
        let before = shards.drop_last();
        lemma_last_mention(before, index);
        assert(shards =~= before.push(shards.last()));
        assert forall|shard: LocatedShardView| #[trigger] shards.contains(shard) <==> shard
            == shards.last() || before.contains(shard) by {
            vstd::seq_lib::lemma_seq_contains_after_push(before, shards.last(), shard);
        }
        if shards.last().index != index && last_mention(before, index) is Some {
            assert(shards.contains(last_mention(before, index)->0));
        }
    }
}

/// It does not matter in which order the storage controller lists the shards of a tenant, as long
/// as it lists none twice.
pub proof fn law_order_of_located_shards(a: TenantLocateView, b: TenantLocateView)
    requires
        a.shard_params == b.shard_params,
        listed_once(a.shards),
        listed_once(b.shards),
        forall|shard: LocatedShardView| #[trigger]
            a.shards.contains(shard) <==> b.shards.contains(shard),
    ensures
        a.conn_info() == b.conn_info(),
{
    assert forall|index: ShardIndex| #[trigger]
        last_mention(a.shards, index) == last_mention(b.shards, index) by {
        lemma_last_mention(a.shards, index);
        lemma_last_mention(b.shards, index);
        if last_mention(a.shards, index) is Some {
            let x = last_mention(a.shards, index)->0;
            assert(b.shards.contains(x));
            let y = last_mention(b.shards, index)->0;
            assert(b.shards.contains(y) && y.index == index);
            let i = choose|i: int| 0 <= i < b.shards.len() && b.shards[i] == x;
            let j = choose|j: int| 0 <= j < b.shards.len() && b.shards[j] == y;
            if i < j {
                assert(b.shards[i].index != b.shards[j].index);
            } else if j < i {
                assert(b.shards[j].index != b.shards[i].index);
            }
        } else if last_mention(b.shards, index) is Some {
            assert(a.shards.contains(last_mention(b.shards, index)->0));
        }
    }
    assert forall|index: ShardIndex| #[trigger]
        located(a.shards).contains_key(index) <==> located(b.shards).contains_key(index) by {
        law_located_shards(a.shards, index);
        law_located_shards(b.shards, index);
    }
    assert forall|index: ShardIndex| #[trigger]
        located(a.shards).contains_key(index) implies located(a.shards)[index] == located(
        b.shards,
    )[index] by {
        law_located_shards(a.shards, index);
        law_located_shards(b.shards, index);
    }
    assert(located(a.shards) =~= located(b.shards));
}

/// If every one of the first `m` shards has a libpq URL, the first gap from `n` on is the first
/// gap from `m` on.
pub(crate) proof fn lemma_no_gap(info: ConnectionInfoView, n: int, m: int)
    requires
        0 <= n <= m <= info.shard_count.shards(),
        forall|i: int| n <= i < m ==> info.shard_url(i) is Url,
    ensures
        info.first_gap(n) == info.first_gap(m),
    decreases m - n,
{
    if n < m {
        lemma_no_gap(info, n + 1, m);
    }
}

/// A client that only speaks libpq reaches the pageserver that the caller chose: its connection
/// string is that pageserver's URL.
pub proof fn law_local_pageserver_connstring(conf: PageServerConfView, default_grpc_port: u16)
    requires
        local_conn_info(conf, default_grpc_port) is Ok,
    ensures
        conf.listen_pg_addr matches Ok(pg) && local_conn_info(
            conf,
            default_grpc_port,
        )->Ok_0.connstring() == Ok::<_, EndpointErrorView>(
            Some(libpq_url(pg.host, port_or(pg.port, DEFAULT_PG_PORT))),
        ),
{
    let info = local_conn_info(conf, default_grpc_port)->Ok_0;
    let pg = conf.listen_pg_addr->Ok_0;
    let url = libpq_url(pg.host, port_or(pg.port, DEFAULT_PG_PORT));
    assert(info.index(0) == unsharded_index());
    assert(info.shard_url(0) == ShardUrl::Url(url));
    lemma_no_gap(info, 0, 1);
    assert(info.first_gap(1) is None);
    let urls = info.urls(1);
    assert(urls.skip(1) =~= Seq::<Seq<char>>::empty());
    assert(separated(urls.skip(1), ","@) =~= Seq::<char>::empty());
    assert(joined(urls, ","@) =~= url);
}

/// A client that only speaks libpq reaches every shard of a located tenant: if the response
/// mentions each of the tenant's shards, the connection string lists their URLs by shard number,
/// in whatever order the response had them.
pub proof fn law_located_tenant_connstring(response: TenantLocateView)
    requires
        forall|n: int|
            0 <= n < response.shard_params.count.shards() ==> last_mention(
                response.shards,
                #[trigger] response.conn_info().index(n),
            ) is Some,
    ensures
        response.conn_info().connstring() == Ok::<_, EndpointErrorView>(
            Some(
                joined(
                    Seq::new(
                        response.shard_params.count.shards() as nat,
                        |n: int|
                            {
                                let shard = last_mention(
                                    response.shards,
                                    response.conn_info().index(n),
                                )->0;
                                libpq_url(shard.listen_pg_addr, shard.listen_pg_port)
                            },
                    ),
                    ","@,
                ),
            ),
        ),
{
    let info = response.conn_info();
    let count = response.shard_params.count.shards() as int;
    assert forall|n: int| 0 <= n < count implies {
        let shard = last_mention(response.shards, info.index(n))->0;
        #[trigger] info.shard_url(n) == ShardUrl::Url(
            libpq_url(shard.listen_pg_addr, shard.listen_pg_port),
        )
    } by {
        law_located_shards(response.shards, info.index(n));
    }
    lemma_no_gap(info, 0, count);
    assert(info.urls(count) =~= Seq::new(
        count as nat,
        |n: int|
            {
                let shard = last_mention(response.shards, response.conn_info().index(n))->0;
                libpq_url(shard.listen_pg_addr, shard.listen_pg_port)
            },
    ));
}

/// A located tenant of which the response leaves out a shard has no connection string: asking
/// for it fails with the first shard that is left out.
pub proof fn law_missing_shard_is_reported(response: TenantLocateView, n: int)
    requires
        0 <= n < response.shard_params.count.shards(),
        last_mention(response.shards, response.conn_info().index(n)) is None,
        forall|k: int|
            0 <= k < n ==> last_mention(
                response.shards,
                #[trigger] response.conn_info().index(k),
            ) is Some,
    ensures
        response.conn_info().connstring() == Err::<Option<Seq<char>>, _>(
            EndpointErrorView::ShardMissing { shard: response.conn_info().index(n) },
        ),
{
    let info = response.conn_info();
    assert forall|k: int| 0 <= k < n implies #[trigger] info.shard_url(k) is Url by {
        law_located_shards(response.shards, info.index(k));
    }
    law_located_shards(response.shards, info.index(n));
    lemma_no_gap(info, 0, n);
}

} // verus!
