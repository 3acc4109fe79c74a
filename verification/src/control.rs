//! Talking to an endpoint that runs: the requests it is sent, and what its answers mean.
use vstd::prelude::*;
use vstd::string::*;

use crate::address::SocketAddress;
use crate::compute::{
    ClusterView, ComputeClaims, ComputeClaimsScope, ComputeClaimsView, ComputeConfig,
    ComputeConfigView, ComputeSpecView, ConfigurationRequest,
};
use crate::conninfo::{ConnectionInfoView, PageserverConnectionInfo};
use crate::endpoint::{safekeeper_connstrings, Endpoint, EndpointView};
use crate::error::{EndpointError, EndpointErrorView};
use crate::ids::{NodeId, SafekeeperGeneration, ShardIndex};
use crate::text::{decimal, to_decimal};

verus! {

/// The URL of a path of an HTTP API.
pub open spec fn http_url(address: SocketAddress, path: Seq<char>) -> Seq<char> {
    "http://"@ + address.authority() + path
}

fn write_http_url(address: SocketAddress, path: &str) -> (s: String)
    ensures
        s@ == http_url(address, path@),
{
    let mut s = "http://".to_owned();
    s.append(address.to_text().as_str());
    s.append(path);
    s
}

/// Whether an HTTP status code reports an error of the client or of the server.
pub open spec fn is_error(status: u16) -> bool {
    400 <= status < 600
}

/// Whether an HTTP status code reports an error of the client or of the server.
pub fn is_error_status(status: u16) -> (r: bool)
    ensures
        r == is_error(status),
{
    400 <= status && status < 600
}

/// What an error response says: its body if there is one, else which status came from where.
pub open spec fn error_text(status: u16, url: Seq<char>, body: Option<Seq<char>>) -> Seq<char> {
    match body {
        Some(body) => "Error: "@ + body,
        None => "Http error ("@ + decimal(status as nat) + ") at "@ + url + "."@,
    }
}

/// Decides what a response means: an error exactly if its status says so. `body` is the body of
/// an error response, if it could be read.
pub fn check_response(status: u16, url: &str, body: &Option<String>) -> (r: Result<
    (),
    EndpointError,
>)
    ensures
        r is Ok <==> !is_error(status),
        r matches Err(error) ==> error@ == (EndpointErrorView::Http {
            message: error_text(status, url@, body.deep_view()),
        }),
{
    if !is_error_status(status) {
        return Ok(());
    }
    let message = match body {
        Some(body) => {
            let mut s = "Error: ".to_owned();
            s.append(body.as_str());
            s
        },
        None => {
            let mut s = "Http error (".to_owned();
            s.append(to_decimal(status as u64).as_str());
            s.append(") at ");
            s.append(url);
            s.append(".");
            s
        },
    };
    Err(EndpointError::Http { message })
}

/// The claims of a token for an endpoint's API. An admin's token names the audience, any other
/// names the endpoint.
pub open spec fn claims(
    ep: EndpointView,
    scope: Option<ComputeClaimsScope>,
    compute_audience: Seq<char>,
) -> ComputeClaimsView {
    match scope {
        Some(ComputeClaimsScope::Admin) => ComputeClaimsView {
            compute_id: None,
            scope,
            audience: Some(seq![compute_audience]),
        },
        None => own_claims(ep),
    }
}

/// The claims of a token that is good for one endpoint only.
pub open spec fn own_claims(ep: EndpointView) -> ComputeClaimsView {
    ComputeClaimsView { compute_id: Some(ep.endpoint_id), scope: None, audience: None }
}

/// The method of an HTTP request.
#[derive(Clone, Copy, Debug, PartialEq, Eq, Structural)]
pub enum HttpMethod {
    Get,
    Post,
}

/// A request to the API of an endpoint's `compute_ctl`.
#[derive(Debug, PartialEq, Eq)]
pub struct HttpRequest {
    pub method: HttpMethod,
    pub url: String,
    /// The claims that the request's bearer token makes, if it carries one.
    pub claims: Option<ComputeClaims>,
    /// How long the answer may take, if that is limited.
    pub timeout_seconds: Option<u64>,
}

/// What an [`HttpRequest`] denotes.
#[verifier::ext_equal]
pub struct HttpRequestView {
    pub method: HttpMethod,
    pub url: Seq<char>,
    pub claims: Option<ComputeClaimsView>,
    pub timeout_seconds: Option<u64>,
}

impl View for HttpRequest {
    type V = HttpRequestView;

    open spec fn view(&self) -> HttpRequestView {
        HttpRequestView {
            method: self.method,
            url: self.url@,
            claims: self.claims.deep_view(),
            timeout_seconds: self.timeout_seconds,
        }
    }
}

/// Asks an endpoint how it is doing.
pub open spec fn status_request(ep: EndpointView) -> HttpRequestView {
    HttpRequestView {
        method: HttpMethod::Get,
        url: http_url(ep.external_http_address, "/status"@),
        claims: Some(own_claims(ep)),
        timeout_seconds: None,
    }
}

/// Hands an endpoint another configuration, which is the body of the request.
pub open spec fn configure_request(ep: EndpointView) -> HttpRequestView {
    HttpRequestView {
        method: HttpMethod::Post,
        url: http_url(ep.external_http_address, "/configure"@),
        claims: Some(own_claims(ep)),
        timeout_seconds: Some(120),
    }
}

/// Tells an endpoint to fetch its configuration again.
pub open spec fn refresh_request(ep: EndpointView) -> HttpRequestView {
    HttpRequestView {
        method: HttpMethod::Post,
        url: http_url(ep.internal_http_address, "/refresh_configuration"@),
        claims: None,
        timeout_seconds: Some(30),
    }
}

/// Tells an endpoint to terminate.
pub open spec fn terminate_request(
    ep: EndpointView,
    compute_audience: Seq<char>,
) -> HttpRequestView {
    HttpRequestView {
        method: HttpMethod::Post,
        url: http_url(ep.external_http_address, "/terminate?mode=immediate"@),
        claims: Some(claims(ep, Some(ComputeClaimsScope::Admin), compute_audience)),
        timeout_seconds: None,
    }
}

/// Whether the connection info names any shard.
pub open spec fn has_shards(info: ConnectionInfoView) -> bool {
    exists|key: ShardIndex| info.shards.contains_key(key)
}

/// A specification with another Postgres configuration.
pub open spec fn with_conf(spec: ComputeSpecView, conf: Seq<char>) -> ComputeSpecView {
    ComputeSpecView {
        cluster: ClusterView { postgresql_conf: Some(conf), ..spec.cluster },
        ..spec
    }
}

/// A specification with other pageservers, where others are given. There must be some.
pub open spec fn with_pageservers(
    spec: ComputeSpecView,
    info: Option<ConnectionInfoView>,
) -> Result<ComputeSpecView, EndpointErrorView> {
    match info {
        None => Ok(spec),
        Some(info) => if has_shards(info) {
            Ok(
                ComputeSpecView {
                    pageserver_connection_info: Some(info),
                    shard_stripe_size: info.stripe_size,
                    ..spec
                },
            )
        } else {
            Err(EndpointErrorView::NoPageservers)
        },
    }
}

/// A specification with other safekeepers, where others are given. Their generation changes only
/// along with them.
pub open spec fn with_safekeepers(
    ep: EndpointView,
    spec: ComputeSpecView,
    safekeepers: Option<Seq<NodeId>>,
    generation: Option<SafekeeperGeneration>,
) -> Result<ComputeSpecView, EndpointErrorView> {
    match safekeepers {
        None => Ok(spec),
        Some(ids) => match safekeeper_connstrings(ep, ids) {
            Err(error) => Err(error),
            Ok(list) => Ok(
                ComputeSpecView {
                    safekeeper_connstrings: list,
                    safekeepers_generation: match generation {
                        Some(generation) => Some(generation.0),
                        None => spec.safekeepers_generation,
                    },
                    ..spec
                },
            ),
        },
    }
}

/// The specification that reconfiguring an endpoint leads to.
pub open spec fn reconfigured(
    ep: EndpointView,
    spec: ComputeSpecView,
    conf: Seq<char>,
    info: Option<ConnectionInfoView>,
    safekeepers: Option<Seq<NodeId>>,
    generation: Option<SafekeeperGeneration>,
) -> Result<ComputeSpecView, EndpointErrorView> {
    match with_pageservers(with_conf(spec, conf), info) {
        Err(error) => Err(error),
        Ok(spec) => with_safekeepers(ep, spec, safekeepers, generation),
    }
}

/// What an answer of [`Endpoint::reconfigure`] must be.
pub open spec fn is_reconfiguration(
    r: Result<ConfigurationRequest, EndpointError>,
    config: ComputeConfigView,
    wanted: Result<ComputeSpecView, EndpointErrorView>,
) -> bool {
    match r {
        Ok(request) => wanted == Ok::<_, EndpointErrorView>(request@.spec)
            && request@.compute_ctl_config == config.compute_ctl_config,
        Err(error) => wanted == Err::<ComputeSpecView, _>(error@),
    }
}

/// Reconfiguring touches nothing but the Postgres configuration, the pageservers, the stripe
/// size, the safekeepers and their generation.
pub proof fn law_reconfigure_keeps_the_rest(
    ep: EndpointView,
    spec: ComputeSpecView,
    conf: Seq<char>,
    info: Option<ConnectionInfoView>,
    safekeepers: Option<Seq<NodeId>>,
    generation: Option<SafekeeperGeneration>,
)
    ensures
        reconfigured(ep, spec, conf, info, safekeepers, generation) matches Ok(new) ==> new == (
        ComputeSpecView {
            cluster: ClusterView { postgresql_conf: Some(conf), ..spec.cluster },
            pageserver_connection_info: new.pageserver_connection_info,
            shard_stripe_size: new.shard_stripe_size,
            safekeeper_connstrings: new.safekeeper_connstrings,
            safekeepers_generation: new.safekeepers_generation,
            ..spec
        }),
{
}

/// If no pageservers are given the pageservers stay, and if no safekeepers are given the
/// safekeepers and their generation stay.
pub proof fn law_reconfigure_changes_what_is_given(
    ep: EndpointView,
    spec: ComputeSpecView,
    conf: Seq<char>,
    info: Option<ConnectionInfoView>,
    safekeepers: Option<Seq<NodeId>>,
    generation: Option<SafekeeperGeneration>,
)
    ensures
        reconfigured(ep, spec, conf, info, safekeepers, generation) matches Ok(new) ==> {
            &&& info is None ==> new.pageserver_connection_info == spec.pageserver_connection_info
                && new.shard_stripe_size == spec.shard_stripe_size
            &&& safekeepers is None ==> new.safekeeper_connstrings == spec.safekeeper_connstrings
                && new.safekeepers_generation == spec.safekeepers_generation
        },
{
}

/// Reconfiguring twice in the same way is reconfiguring once.
pub proof fn law_reconfigure_is_idempotent(
    ep: EndpointView,
    spec: ComputeSpecView,
    conf: Seq<char>,
    info: Option<ConnectionInfoView>,
    safekeepers: Option<Seq<NodeId>>,
    generation: Option<SafekeeperGeneration>,
)
    ensures
        reconfigured(ep, spec, conf, info, safekeepers, generation) matches Ok(new)
            ==> reconfigured(ep, new, conf, info, safekeepers, generation) == Ok::<
            _,
            EndpointErrorView,
        >(new),
{
}

/// Changing the pageservers and then the safekeepers leads where changing both at once leads.
pub proof fn law_reconfigure_in_steps(
    ep: EndpointView,
    spec: ComputeSpecView,
    conf: Seq<char>,
    info: ConnectionInfoView,
    safekeepers: Seq<NodeId>,
    generation: SafekeeperGeneration,
)
    ensures
        reconfigured(ep, spec, conf, Some(info), None, None) matches Ok(new) ==> reconfigured(
            ep,
            new,
            conf,
            None,
            Some(safekeepers),
            Some(generation),
        ) == reconfigured(ep, spec, conf, Some(info), Some(safekeepers), Some(generation)),
{
}

impl Endpoint {
    /// The claims of a token for this endpoint's API. `compute_audience` is the audience that
    /// computes expect of an admin.
    pub fn generate_jwt(&self, scope: Option<ComputeClaimsScope>, compute_audience: &str) -> (r:
        ComputeClaims)
        ensures
            r@ == claims(self@, scope, compute_audience@),
    {
        let r = match scope {
            Some(ComputeClaimsScope::Admin) => {
                let mut audience: Vec<String> = Vec::new();
                audience.push(compute_audience.to_owned());
                ComputeClaims { compute_id: None, scope, audience: Some(audience) }
            },
            None => self.own_claims(),
        };
        assert(r@ =~~= claims(self@, scope, compute_audience@));
        r
    }

    /// The claims of a token that is good for this endpoint only.
    fn own_claims(&self) -> (r: ComputeClaims)
        ensures
            r@ == own_claims(self@),
    {
        let r = ComputeClaims {
            compute_id: Some(self.endpoint_id.clone()),
            scope: None,
            audience: None,
        };
        assert(r@ =~~= own_claims(self@));
        r
    }

    /// The request by which the endpoint tells how it is doing.
    pub fn get_status(&self) -> (r: HttpRequest)
        ensures
            r@ == status_request(self@),
    {
        HttpRequest {
            method: HttpMethod::Get,
            url: write_http_url(self.external_http_address, "/status"),
            claims: Some(self.own_claims()),
            timeout_seconds: None,
        }
    }

    /// The request by which the endpoint takes another configuration.
    pub fn configure(&self) -> (r: HttpRequest)
        ensures
            r@ == configure_request(self@),
    {
        HttpRequest {
            method: HttpMethod::Post,
            url: write_http_url(self.external_http_address, "/configure"),
            claims: Some(self.own_claims()),
            timeout_seconds: Some(120),
        }
    }

    /// The request by which the endpoint terminates. `compute_audience` is the audience that
    /// computes expect of an admin.
    pub fn terminate(&self, compute_audience: &str) -> (r: HttpRequest)
        ensures
            r@ == terminate_request(self@, compute_audience@),
    {
        HttpRequest {
            method: HttpMethod::Post,
            url: write_http_url(self.external_http_address, "/terminate?mode=immediate"),
            claims: Some(self.generate_jwt(Some(ComputeClaimsScope::Admin), compute_audience)),
            timeout_seconds: None,
        }
    }

    /// The request by which the endpoint fetches its configuration again.
    pub fn refresh_configuration(&self) -> (r: HttpRequest)
        ensures
            r@ == refresh_request(self@),
    {
        HttpRequest {
            method: HttpMethod::Post,
            url: write_http_url(self.internal_http_address, "/refresh_configuration"),
            claims: None,
            timeout_seconds: Some(30),
        }
    }

    /// Puts other pageservers into the configuration file of the endpoint, which must hold a
    /// specification. Nothing else in it changes.
    pub fn update_pageservers_in_config(
        &self,
        config: ComputeConfig,
        pageserver_conninfo: &PageserverConnectionInfo,
    ) -> (r: ComputeConfig)
        requires
            config@.spec is Some,
        ensures
            r@ == (ComputeConfigView {
                spec: Some(
                    ComputeSpecView {
                        pageserver_connection_info: Some(pageserver_conninfo@),
                        ..config@.spec->0
                    },
                ),
                ..config@
            }),
    {
        let mut spec = config.spec.unwrap();
        spec.pageserver_connection_info = Some(pageserver_conninfo.clone());
        ComputeConfig { spec: Some(spec), compute_ctl_config: config.compute_ctl_config }
    }

    /// The request by which a running endpoint takes over another configuration. It starts from
    /// the endpoint's configuration file, which must hold a specification, and from its current
    /// Postgres settings.
    pub fn reconfigure(
        &self,
        config: ComputeConfig,
        postgresql_conf: String,
        pageserver_conninfo: Option<&PageserverConnectionInfo>,
        safekeepers: Option<Vec<NodeId>>,
        safekeeper_generation: Option<SafekeeperGeneration>,
    ) -> (r: Result<ConfigurationRequest, EndpointError>)
        requires
            config@.spec is Some,
        ensures
            is_reconfiguration(
                r,
                config@,
                reconfigured(
                    self@,
                    config@.spec->0,
                    postgresql_conf@,
                    pageserver_conninfo.deep_view(),
                    match safekeepers {
                        Some(ids) => Some(ids@),
                        None => None,
                    },
                    safekeeper_generation,
                ),
            ),
    {
        let mut spec = config.spec.unwrap();
        let ghost start = spec@;
        spec.cluster.postgresql_conf = Some(postgresql_conf);
        assert(spec@ =~= with_conf(start, postgresql_conf@));
        if let Some(info) = pageserver_conninfo {
            // A compute cannot do without pageservers.
            if info.shards.is_empty() {
                return Err(EndpointError::NoPageservers);
            }
            proof {
                let key = choose|key: ShardIndex| info.shards@.contains_key(key);
                assert(info@.shards.contains_key(key));
            }
            spec.pageserver_connection_info = Some(info.clone());
            spec.shard_stripe_size = info.stripe_size;
        }
        assert(with_pageservers(with_conf(start, postgresql_conf@), pageserver_conninfo.deep_view())
            == Ok::<_, EndpointErrorView>(spec@));
        // If safekeepers are not given, they stay.
        if let Some(ids) = safekeepers {
            let list = match self.build_safekeepers_connstrs(&ids) {
                Ok(list) => list,
                Err(error) => {
                    return Err(error);
                },
            };
            spec.safekeeper_connstrings = list;
            if let Some(generation) = safekeeper_generation {
                spec.safekeepers_generation = Some(generation.0);
            }
        }
        Ok(ConfigurationRequest { spec, compute_ctl_config: config.compute_ctl_config })
    }

    /// The request by which a running endpoint takes over other pageservers.
    pub fn reconfigure_pageservers(
        &self,
        config: ComputeConfig,
        postgresql_conf: String,
        pageservers: &PageserverConnectionInfo,
    ) -> (r: Result<ConfigurationRequest, EndpointError>)
        requires
            config@.spec is Some,
        ensures
            is_reconfiguration(
                r,
                config@,
                reconfigured(
                    self@,
                    config@.spec->0,
                    postgresql_conf@,
                    Some(pageservers@),
                    None,
                    None,
                ),
            ),
    {
        self.reconfigure(config, postgresql_conf, Some(pageservers), None, None)
    }

    /// The request by which a running endpoint takes over other safekeepers.
    pub fn reconfigure_safekeepers(
        &self,
        config: ComputeConfig,
        postgresql_conf: String,
        safekeepers: Vec<NodeId>,
        generation: SafekeeperGeneration,
    ) -> (r: Result<ConfigurationRequest, EndpointError>)
        requires
            config@.spec is Some,
        ensures
            is_reconfiguration(
                r,
                config@,
                reconfigured(
                    self@,
                    config@.spec->0,
                    postgresql_conf@,
                    None,
                    Some(safekeepers@),
                    Some(generation),
                ),
            ),
    {
        self.reconfigure(config, postgresql_conf, None, Some(safekeepers), Some(generation))
    }
}

} // verus!
