//! Where the pageservers of a tenant are.
use endpoint_control::conninfo::{
    PageserverConnectionInfo, PageserverProtocol, PageserverShardConnectionInfo,
    PageserverShardInfo, ShardMap,
};
use endpoint_control::error::EndpointError;
use endpoint_control::ids::{
    NodeId, ShardCount, ShardIndex, ShardNumber, ShardStripeSize, TenantId,
};
use endpoint_control::locate::{
    local_pageserver_conf_to_conn_info, tenant_locate_response_to_conn_info, HostPort,
    PageServerConf, ShardParameters, TenantLocateResponse, TenantLocateResponseShard,
    TenantShardId,
};

fn at(host: &str, port: Option<u16>) -> HostPort {
    HostPort { host: host.to_string(), port }
}

fn index(number: u8, count: u8) -> ShardIndex {
    ShardIndex { shard_number: ShardNumber(number), shard_count: ShardCount(count) }
}

fn pageserver(libpq: Option<&str>) -> PageserverShardInfo {
    PageserverShardInfo {
        pageservers: vec![PageserverShardConnectionInfo {
            id: Some(NodeId(1)),
            libpq_url: libpq.map(|url| url.to_string()),
            grpc_url: None,
        }],
    }
}

fn info(count: u8, shards: ShardMap) -> PageserverConnectionInfo {
    PageserverConnectionInfo {
        shard_count: ShardCount(count),
        stripe_size: None,
        shards,
        prefer_protocol: PageserverProtocol::Libpq,
    }
}

fn located(number: u8, count: u8, host: &str, grpc: bool) -> TenantLocateResponseShard {
    TenantLocateResponseShard {
        shard_id: TenantShardId {
            tenant_id: TenantId { text: "aa".to_string() },
            shard_number: ShardNumber(number),
            shard_count: ShardCount(count),
        },
        node_id: NodeId(number as u64 + 1),
        listen_pg_addr: host.to_string(),
        listen_pg_port: 64000,
        listen_grpc_addr: if grpc { Some(host.to_string()) } else { None },
        listen_grpc_port: if grpc { Some(51051) } else { None },
    }
}

#[test]
fn shard_map_holds_the_last_entry_for_a_shard() {
    let map = ShardMap::new()
        .insert(index(0, 2), pageserver(Some("a")))
        .insert(index(1, 2), pageserver(Some("b")))
        .insert(index(0, 2), pageserver(Some("c")));
    assert_eq!(map.get(index(0, 2)), Some(&pageserver(Some("c"))));
    assert_eq!(map.get(index(1, 2)), Some(&pageserver(Some("b"))));
    assert_eq!(map.get(index(1, 4)), None);
    assert_eq!(map.entries().len(), 2);
    assert!(!map.is_empty());
    assert!(ShardMap::new().is_empty());
}

#[test]
fn maps_with_the_same_shards_are_equal() {
    let keys = [index(1, 2), index(0, 4), index(0, 2), index(3, 4), ShardIndex::unsharded()];
    let mut forwards = ShardMap::new();
    for key in keys {
        forwards = forwards.insert(key, pageserver(Some("old")));
        forwards = forwards.insert(key, pageserver(Some("new")));
    }
    let mut backwards = ShardMap::new();
    for key in keys.iter().rev() {
        backwards = backwards.insert(*key, pageserver(Some("new")));
    }
    assert_eq!(forwards, backwards);
    assert_eq!(forwards, forwards.clone());
    assert_eq!(info(0, forwards), info(0, backwards));
    let mut listed = Vec::new();
    for (key, _) in ShardMap::new()
        .insert(index(3, 4), pageserver(None))
        .insert(index(1, 2), pageserver(None))
        .insert(index(0, 4), pageserver(None))
        .entries()
    {
        listed.push(*key);
    }
    assert_eq!(listed, vec![index(1, 2), index(0, 4), index(3, 4)]);
    let other = ShardMap::new().insert(index(0, 2), pageserver(Some("a")));
    assert_ne!(other, ShardMap::new().insert(index(0, 2), pageserver(Some("b"))));
    assert_ne!(other, ShardMap::new());
}

#[test]
fn connstring_lists_shards_in_order() {
    let shards = ShardMap::new()
        .insert(index(1, 2), pageserver(Some("postgres://b")))
        .insert(index(0, 2), pageserver(Some("postgres://a")));
    assert_eq!(
        info(2, shards).pageserver_connstring(),
        Ok(Some("postgres://a,postgres://b".to_string()))
    );
}

#[test]
fn connstring_needs_every_shard() {
    let shards = ShardMap::new().insert(index(0, 2), pageserver(Some("postgres://a")));
    assert_eq!(
        info(2, shards).pageserver_connstring(),
        Err(EndpointError::ShardMissing { shard: index(1, 2) })
    );
}

#[test]
fn connstring_needs_a_pageserver_for_every_shard() {
    let shards = ShardMap::new()
        .insert(index(0, 2), PageserverShardInfo { pageservers: Vec::new() })
        .insert(index(1, 2), pageserver(None));
    assert_eq!(
        info(2, shards).pageserver_connstring(),
        Err(EndpointError::ShardWithoutPageserver)
    );
}

#[test]
fn no_connstring_without_libpq() {
    // The first shard without a URL decides, even if a later one is missing.
    let shards = ShardMap::new().insert(index(0, 2), pageserver(None));
    assert_eq!(info(2, shards).pageserver_connstring(), Ok(None));
}

#[test]
fn connstring_of_an_unsharded_tenant() {
    let shards = ShardMap::new().insert(ShardIndex::unsharded(), pageserver(Some("postgres://a")));
    assert_eq!(info(0, shards).pageserver_connstring(), Ok(Some("postgres://a".to_string())));
}

#[test]
fn local_pageserver_with_default_ports() {
    let conf = PageServerConf {
        id: NodeId(3),
        listen_pg_addr: Ok(at("127.0.0.1", None)),
        listen_grpc_addr: Some(Ok(at("[::1]", None))),
    };
    let info = local_pageserver_conf_to_conn_info(&conf, 51051).unwrap();
    assert_eq!(info.shard_count, ShardCount(0));
    assert_eq!(info.stripe_size, None);
    assert_eq!(info.prefer_protocol, PageserverProtocol::Libpq);
    assert_eq!(
        info.shards.get(ShardIndex::unsharded()).unwrap().pageservers,
        vec![PageserverShardConnectionInfo {
            id: Some(NodeId(3)),
            libpq_url: Some("postgres://no_user@127.0.0.1:5432".to_string()),
            grpc_url: Some("grpc://no_user@[::1]:51051".to_string()),
        }]
    );
    assert_eq!(
        info.pageserver_connstring(),
        Ok(Some("postgres://no_user@127.0.0.1:5432".to_string()))
    );
}

#[test]
fn local_pageserver_with_given_ports() {
    let conf = PageServerConf {
        id: NodeId(3),
        listen_pg_addr: Ok(at("ps", Some(64000))),
        listen_grpc_addr: Some(Ok(at("ps", Some(50051)))),
    };
    let info = local_pageserver_conf_to_conn_info(&conf, 51051).unwrap();
    let pageservers = &info.shards.get(ShardIndex::unsharded()).unwrap().pageservers;
    assert_eq!(pageservers[0].libpq_url, Some("postgres://no_user@ps:64000".to_string()));
    assert_eq!(pageservers[0].grpc_url, Some("grpc://no_user@ps:50051".to_string()));
}

#[test]
fn local_pageserver_without_grpc() {
    let conf = PageServerConf {
        id: NodeId(3),
        listen_pg_addr: Ok(at("ps", Some(64000))),
        listen_grpc_addr: None,
    };
    let info = local_pageserver_conf_to_conn_info(&conf, 51051).unwrap();
    assert_eq!(info.shards.get(ShardIndex::unsharded()).unwrap().pageservers[0].grpc_url, None);
}

#[test]
fn bad_addresses_are_reported_libpq_first() {
    let conf = PageServerConf {
        id: NodeId(3),
        listen_pg_addr: Err("bad pg".to_string()),
        listen_grpc_addr: Some(Err("bad grpc".to_string())),
    };
    assert_eq!(
        local_pageserver_conf_to_conn_info(&conf, 51051),
        Err(EndpointError::BadAddress { cause: "bad pg".to_string() })
    );
    let conf = PageServerConf {
        id: NodeId(3),
        listen_pg_addr: Ok(at("ps", None)),
        listen_grpc_addr: Some(Err("bad grpc".to_string())),
    };
    assert_eq!(
        local_pageserver_conf_to_conn_info(&conf, 51051),
        Err(EndpointError::BadAddress { cause: "bad grpc".to_string() })
    );
}

#[test]
fn located_tenant_has_its_shards() {
    let response = TenantLocateResponse {
        shards: vec![located(1, 2, "ps-2", true), located(0, 2, "ps-1", false)],
        shard_params: ShardParameters { count: ShardCount(2), stripe_size: ShardStripeSize(2048) },
    };
    let info = tenant_locate_response_to_conn_info(&response).unwrap();
    assert_eq!(info.shard_count, ShardCount(2));
    assert_eq!(info.stripe_size, Some(ShardStripeSize(2048)));
    assert_eq!(
        info.shards.get(index(1, 2)).unwrap().pageservers,
        vec![PageserverShardConnectionInfo {
            id: Some(NodeId(2)),
            libpq_url: Some("postgres://no_user@ps-2:64000".to_string()),
            grpc_url: Some("grpc://no_user@ps-2:51051".to_string()),
        }]
    );
    assert_eq!(info.shards.get(index(0, 2)).unwrap().pageservers[0].grpc_url, None);
    assert_eq!(
        info.pageserver_connstring(),
        Ok(Some("postgres://no_user@ps-1:64000,postgres://no_user@ps-2:64000".to_string()))
    );
}

#[test]
fn order_of_located_shards_does_not_matter() {
    let response = |shards: Vec<TenantLocateResponseShard>| TenantLocateResponse {
        shards,
        shard_params: ShardParameters { count: ShardCount(2), stripe_size: ShardStripeSize(1) },
    };
    let one = response(vec![located(0, 2, "ps-1", true), located(1, 2, "ps-2", false)]);
    let other = response(vec![located(1, 2, "ps-2", false), located(0, 2, "ps-1", true)]);
    let one = tenant_locate_response_to_conn_info(&one).unwrap();
    let other = tenant_locate_response_to_conn_info(&other).unwrap();
    assert_eq!(one, other);
    assert_eq!(one.pageserver_connstring(), other.pageserver_connstring());
}

#[test]
fn located_tenant_that_is_not_sharded_has_no_stripe_size() {
    let response = TenantLocateResponse {
        shards: vec![located(0, 0, "ps-1", false)],
        shard_params: ShardParameters { count: ShardCount(0), stripe_size: ShardStripeSize(2048) },
    };
    let info = tenant_locate_response_to_conn_info(&response).unwrap();
    assert_eq!(info.stripe_size, None);
    assert_eq!(
        info.pageserver_connstring(),
        Ok(Some("postgres://no_user@ps-1:64000".to_string()))
    );
}

#[test]
fn located_tenant_with_a_missing_shard() {
    let response = TenantLocateResponse {
        shards: vec![located(0, 2, "ps-1", false)],
        shard_params: ShardParameters { count: ShardCount(2), stripe_size: ShardStripeSize(1) },
    };
    let info = tenant_locate_response_to_conn_info(&response).unwrap();
    assert_eq!(
        info.pageserver_connstring(),
        Err(EndpointError::ShardMissing { shard: index(1, 2) })
    );
}

#[test]
fn shard_that_is_located_twice_is_where_it_was_seen_last() {
    let response = TenantLocateResponse {
        shards: vec![located(0, 0, "old", false), located(0, 0, "new", false)],
        shard_params: ShardParameters { count: ShardCount(0), stripe_size: ShardStripeSize(1) },
    };
    let info = tenant_locate_response_to_conn_info(&response).unwrap();
    assert_eq!(
        info.pageserver_connstring(),
        Ok(Some("postgres://no_user@new:64000".to_string()))
    );
}
