//! Full Page Cache (FPC), Varnish, and layout puncture evaluation.

use crate::endpoints::{self, Endpoint, EndpointView, HttpTarget};
use crate::http_probe::{self, HttpProbeError, HttpProbeErrorView, HttpResponse, HttpResponseView};
use crate::model::{
    self, FpcEngine, FpcProbeStatus, FpcProbeStatusView, ProbeOutcome, ProbeOutcomeView,
    SanitizedEnvConfig, SanitizedEnvConfigView, UncacheableBlock, UncacheableBlockView,
    VarnishProbeResult, VarnishProbeResultView,
};
use crate::opensearch_inspector::NO_HTTP_OVER_SOCKET;
use crate::text::{self, contains, is_blank, own_opt, to_ascii_lowercase, trim};
use vstd::prelude::*;

verus! {

/// Varnish's conventional listen port for a Magento install.
pub const DEFAULT_VARNISH_PORT: u16 = 6081;

/// Whether a header names Varnish.
pub open spec fn names_varnish(h: Option<Seq<char>>) -> bool {
    match h {
        Some(v) => text::contains_text(text::ascii_lower(v), "varnish"@),
        None => false,
    }
}

/// Whether the headers of a response positively name Varnish. `X-Varnish` is set by Varnish
/// on every response and by nothing else, but proves nothing when it is blank.
pub open spec fn is_varnish(
    via: Option<Seq<char>>,
    x_varnish: Option<Seq<char>>,
    server: Option<Seq<char>>,
) -> bool {
    ||| match x_varnish {
        Some(v) => text::trimmed(v).len() > 0,
        None => false,
    }
    ||| names_varnish(via)
    ||| names_varnish(server)
}

fn mentions_varnish(h: Option<&str>) -> (r: bool)
    ensures
        r == names_varnish(text::str_opt(h)),
{
    match h {
        Some(v) => contains(&to_ascii_lowercase(v), "varnish"),
        None => false,
    }
}

/// True when a response header positively names Varnish.
pub fn identifies_varnish(via: Option<&str>, x_varnish: Option<&str>, server: Option<&str>) -> (r:
    bool)
    ensures
        r == is_varnish(text::str_opt(via), text::str_opt(x_varnish), text::str_opt(server)),
{
    if let Some(v) = x_varnish {
        if !is_blank(&trim(v)) {
            return true;
        }
    }
    mentions_varnish(via) || mentions_varnish(server)
}

/// What a probe of a proxy tier came to. An open port proves nothing: on a Magento host,
/// port 80 is nginx or Apache.
pub open spec fn proxy_probed(
    endpoint: Seq<char>,
    response: Result<HttpResponseView, HttpProbeErrorView>,
) -> VarnishProbeResultView {
    match response {
        Ok(resp) => VarnishProbeResultView {
            endpoint: Some(endpoint),
            outcome: ProbeOutcomeView::Succeeded,
            http_status: Some(resp.status),
            via_header: resp.header_value("via"@),
            x_varnish_header: resp.header_value("x-varnish"@),
            age_header: resp.header_value("age"@),
            x_magento_cache_debug: resp.header_value("x-magento-cache-debug"@),
            server_header: resp.header_value("server"@),
            identified_as_varnish: is_varnish(
                resp.header_value("via"@),
                resp.header_value("x-varnish"@),
                resp.header_value("server"@),
            ),
        },
        Err(e) => VarnishProbeResultView {
            endpoint: Some(endpoint),
            outcome: ProbeOutcomeView::Failed { reason: e.described() },
            ..VarnishProbeResultView::unset()
        },
    }
}

fn read_proxy(endpoint: String, response: &Result<HttpResponse, HttpProbeError>) -> (r:
    VarnishProbeResult)
    ensures
        r@ == proxy_probed(endpoint@, http_probe::response_result(*response)),
{
    let mut result = VarnishProbeResult::default();
    result.endpoint = Some(endpoint);
    match response {
        Ok(resp) => {
            result.outcome = ProbeOutcome::Succeeded;
            result.http_status = Some(resp.status);
            result.via_header = own_opt(resp.header("via"));
            result.x_varnish_header = own_opt(resp.header("x-varnish"));
            result.age_header = own_opt(resp.header("age"));
            result.x_magento_cache_debug = own_opt(resp.header("x-magento-cache-debug"));
            result.server_header = own_opt(resp.header("server"));
            result.identified_as_varnish = identifies_varnish(
                resp.header("via"),
                resp.header("x-varnish"),
                resp.header("server"),
            );
        },
        Err(e) => {
            result.outcome = ProbeOutcome::failed(&e.describe());
        },
    }
    result
}

/// What a probe of a Varnish address came to.
pub open spec fn varnish_probed(
    endpoint: EndpointView,
    response: Result<HttpResponseView, HttpProbeErrorView>,
) -> VarnishProbeResultView {
    if endpoint.is_unix_socket {
        VarnishProbeResultView {
            endpoint: Some(endpoint.shown()),
            outcome: ProbeOutcomeView::Failed { reason: NO_HTTP_OVER_SOCKET@ },
            ..VarnishProbeResultView::unset()
        }
    } else {
        proxy_probed(endpoint.shown(), response)
    }
}

/// Reports whether what answered at an endpoint is really a Varnish tier.
///
/// Varnish is identified only from response headers it actually emits: `Via:` (which
/// carries "varnish"), `X-Varnish`, or `Server: Varnish`.
pub fn probe_varnish(endpoint: &Endpoint, response: &Result<HttpResponse, HttpProbeError>) -> (r:
    VarnishProbeResult)
    ensures
        r@ == varnish_probed(endpoint@, http_probe::response_result(*response)),
{
    if endpoint.is_unix_socket {
        let mut result = VarnishProbeResult::default();
        result.endpoint = Some(endpoint.describe());
        result.outcome = ProbeOutcome::failed(NO_HTTP_OVER_SOCKET);
        return result;
    }
    read_proxy(endpoint.describe(), response)
}

/// Reports what the storefront itself answered, instead of a Varnish port.
///
/// On a cluster the operator may only be able to reach the public storefront; its response
/// headers still reveal whether a Varnish tier fronts the store.
pub fn probe_storefront_cache(
    target: &HttpTarget,
    response: &Result<HttpResponse, HttpProbeError>,
) -> (r: VarnishProbeResult)
    ensures
        r@ == proxy_probed(target@.shown(), http_probe::response_result(*response)),
{
    read_proxy(target.describe(), response)
}

/// The host and the port that a probed address names.
pub open spec fn probed_address(endpoint: Option<Seq<char>>) -> (Option<Seq<char>>, Option<u16>) {
    match endpoint {
        Some(ep) => match endpoints::endpoint_parsed(ep, DEFAULT_VARNISH_PORT) {
            Ok(e) => (Some(e.host), Some(e.port)),
            Err(_) => (None, None),
        },
        None => (None, None),
    }
}

/// The Full Page Cache of a store. What the store is configured to use decides the engine; a
/// reachable Varnish only does when `env.php` says nothing either way.
pub open spec fn fpc_of(
    env: SanitizedEnvConfigView,
    blocks: Seq<UncacheableBlockView>,
    probe: VarnishProbeResultView,
) -> FpcProbeStatusView {
    let configured = env.http_cache_hosts.len() > 0;
    let (host, port) = probed_address(probe.endpoint);
    FpcProbeStatusView {
        engine: if configured {
            FpcEngine::Varnish
        } else if env.redis_page_cache_host is Some {
            FpcEngine::BuiltIn
        } else if probe.identified_as_varnish {
            FpcEngine::Varnish
        } else {
            FpcEngine::Unknown
        },
        is_varnish_configured: configured,
        is_varnish_reachable: probe.identified_as_varnish,
        varnish_host: host,
        varnish_port: port,
        varnish_probe: probe,
        uncacheable_blocks: blocks,
    }
}

/// Evaluates FPC configuration and layout punctures.
///
/// "Configured" comes from `env.php` `http_cache_hosts`; "reachable" comes from a probe
/// that identified Varnish. They are reported separately because a store configured for
/// Varnish with an unreachable tier and a store on built-in FPC with Varnish running next to
/// it are different problems.
pub fn evaluate_fpc(
    env_config: &SanitizedEnvConfig,
    uncacheable_blocks: Vec<UncacheableBlock>,
    varnish_probe: VarnishProbeResult,
) -> (r: FpcProbeStatus)
    ensures
        r@ == fpc_of(env_config@, model::block_views(uncacheable_blocks@), varnish_probe@),
{
    let is_varnish_configured = env_config.http_cache_hosts.len() > 0;
    let is_varnish_reachable = varnish_probe.identified_as_varnish;
    let engine = if is_varnish_configured {
        FpcEngine::Varnish
    } else if env_config.redis_page_cache_host.is_some() {
        FpcEngine::BuiltIn
    } else if is_varnish_reachable {
        FpcEngine::Varnish
    } else {
        FpcEngine::Unknown
    };
    let (varnish_host, varnish_port) = match &varnish_probe.endpoint {
        Some(ep) => match Endpoint::parse(ep, DEFAULT_VARNISH_PORT) {
            Ok(parsed) => (Some(parsed.host), Some(parsed.port)),
            Err(_) => (None, None),
        },
        None => (None, None),
    };
    let r = FpcProbeStatus {
        engine,
        is_varnish_configured,
        is_varnish_reachable,
        varnish_host,
        varnish_port,
        varnish_probe,
        uncacheable_blocks,
    };
    assert(r@.uncacheable_blocks =~= model::block_views(uncacheable_blocks@));
    r
}

/// Whatever answered, it is taken for Varnish only when the exchange came about and one of
/// the three headers names it.
pub proof fn law_varnish_needs_a_naming_header(
    endpoint: EndpointView,
    response: Result<HttpResponseView, HttpProbeErrorView>,
)
    ensures
        varnish_probed(endpoint, response).identified_as_varnish <==> {
            &&& !endpoint.is_unix_socket
            &&& response is Ok
            &&& is_varnish(
                response->Ok_0.header_value("via"@),
                response->Ok_0.header_value("x-varnish"@),
                response->Ok_0.header_value("server"@),
            )
        },
        varnish_probed(endpoint, response).outcome is Succeeded <==> !endpoint.is_unix_socket
            && response is Ok,
{
}

/// Whether a store is configured for Varnish comes from its settings alone, and whether
/// Varnish is reachable from the probe alone.
pub proof fn law_configured_is_not_reachable(
    env: SanitizedEnvConfigView,
    blocks: Seq<UncacheableBlockView>,
    a: VarnishProbeResultView,
    b: VarnishProbeResultView,
    other: SanitizedEnvConfigView,
)
    ensures
        fpc_of(env, blocks, a).is_varnish_configured == fpc_of(env, blocks, b).is_varnish_configured,
        fpc_of(env, blocks, a).is_varnish_reachable == fpc_of(
            other,
            blocks,
            a,
        ).is_varnish_reachable,
        fpc_of(env, blocks, a).uncacheable_blocks == blocks,
{
}

/// The settings of a store win over the probe: a reachable Varnish decides the engine only
/// where the settings name neither cache hosts nor a page cache.
pub proof fn law_settings_decide_the_engine(
    env: SanitizedEnvConfigView,
    blocks: Seq<UncacheableBlockView>,
    a: VarnishProbeResultView,
    b: VarnishProbeResultView,
)
    ensures
        env.http_cache_hosts.len() > 0 || env.redis_page_cache_host is Some ==> fpc_of(
            env,
            blocks,
            a,
        ).engine == fpc_of(env, blocks, b).engine,
        env.http_cache_hosts.len() == 0 && env.redis_page_cache_host is None ==> (fpc_of(
            env,
            blocks,
            a,
        ).engine == FpcEngine::Varnish <==> a.identified_as_varnish),
{
}

/// A response is one of Varnish where it carries an `X-Varnish` that is not blank, or where
/// its `Via` or `Server` names Varnish, letter case aside; each alone will do.
pub proof fn law_varnish_headers(
    via: Option<Seq<char>>,
    x_varnish: Option<Seq<char>>,
    server: Option<Seq<char>>,
)
    ensures
        is_varnish(via, x_varnish, server) <==> (x_varnish is Some && text::trimmed(
            x_varnish->0,
        ).len() > 0) || (via is Some && text::contains_text(
            text::ascii_lower(via->0),
            "varnish"@,
        )) || (server is Some && text::contains_text(text::ascii_lower(server->0), "varnish"@)),
{
}

/// What a probe of a proxy comes to: the status and the headers of the response, under their
/// names, or the reason why there is none.
pub proof fn law_proxy_probe(
    endpoint: Seq<char>,
    response: Result<HttpResponseView, HttpProbeErrorView>,
)
    ensures
        ({
            let r = proxy_probed(endpoint, response);
            let resp = response->Ok_0;
            &&& r.endpoint == Some(endpoint)
            &&& response is Ok ==> {
                &&& r.outcome is Succeeded
                &&& r.http_status == Some(resp.status)
                &&& r.via_header == resp.header_value("via"@)
                &&& r.x_varnish_header == resp.header_value("x-varnish"@)
                &&& r.age_header == resp.header_value("age"@)
                &&& r.x_magento_cache_debug == resp.header_value("x-magento-cache-debug"@)
                &&& r.server_header == resp.header_value("server"@)
            }
            &&& response is Err ==> {
                &&& r.outcome == (ProbeOutcomeView::Failed {
                    reason: response->Err_0.described(),
                })
                &&& r.http_status is None && r.via_header is None && r.x_varnish_header is None
                    && !r.identified_as_varnish
            }
        }),
{
}

/// The engine is Varnish where `env.php` names cache hosts, else the built-in one where it
/// names a Redis for the page cache, else Varnish where a probe identified it; otherwise it
/// is unknown.
pub proof fn law_engine(
    env: SanitizedEnvConfigView,
    blocks: Seq<UncacheableBlockView>,
    probe: VarnishProbeResultView,
)
    ensures
        ({
            let r = fpc_of(env, blocks, probe);
            let hosts = env.http_cache_hosts.len() > 0;
            &&& r.is_varnish_configured == hosts
            &&& r.is_varnish_reachable == probe.identified_as_varnish
            &&& hosts ==> r.engine == FpcEngine::Varnish
            &&& !hosts && env.redis_page_cache_host is Some ==> r.engine == FpcEngine::BuiltIn
            &&& !hosts && env.redis_page_cache_host is None && probe.identified_as_varnish
                ==> r.engine == FpcEngine::Varnish
            &&& !hosts && env.redis_page_cache_host is None && !probe.identified_as_varnish
                ==> r.engine == FpcEngine::Unknown
            &&& r.varnish_probe == probe
            &&& probe.endpoint is None ==> r.varnish_host is None && r.varnish_port is None
            &&& probe.endpoint matches Some(at) ==> (endpoints::endpoint_parsed(at, 6081) is Ok
                ==> r.varnish_host == Some(endpoints::endpoint_parsed(at, 6081)->Ok_0.host)
                && r.varnish_port == Some(endpoints::endpoint_parsed(at, 6081)->Ok_0.port))
        }),
{
}

} // verus!
