//! Which services to probe, and what the probes add to the model of a store.

use crate::endpoints::{
    self, Endpoint, EndpointView, HttpTarget, HttpTargetView, RemoteTargets, RemoteTargetsView,
};
use crate::env_parser::{ParsedEnv, ParsedEnvView};
use crate::fpc_inspector::{self, evaluate_fpc, DEFAULT_VARNISH_PORT};
use crate::live_inspector;
use crate::model::{
    self, DatabaseMetrics, MagentoInstallation, NginxStatus, OpenSearchStatus, PhpWorkerMetrics,
    PhpWorkerMetricsView, RedisStatus, RuntimeMetrics, SanitizedEnvConfig, SanitizedEnvConfigView,
    VarnishProbeResult, VarnishProbeResultView,
};
use crate::opensearch_inspector::DEFAULT_OPENSEARCH_PORT;
use crate::php_fpm_inspector::{self, merge_local_sizing};
use crate::redis_inspector::DEFAULT_REDIS_PORT;
use crate::text::{self, contains_char, copy_opt};
use vstd::prelude::*;

verus! {

/// The seconds that one probe of a service may take.
pub const PROBE_TIMEOUT_SECS: u64 = 3;

/// The least seconds granted to the database before its margin.
pub const LEAST_DATABASE_SECS: u64 = 5;

/// The seconds by which the inspection of the database may overrun.
pub const DATABASE_MARGIN_SECS: u64 = 2;

/// The seconds that the whole inspection of the database may take.
pub fn database_deadline_secs(max_db_seconds: u64) -> (r: u64)
    ensures
        max_db_seconds <= LEAST_DATABASE_SECS ==> r == LEAST_DATABASE_SECS + DATABASE_MARGIN_SECS,
        max_db_seconds > LEAST_DATABASE_SECS ==> r == live_inspector::capped(
            max_db_seconds + DATABASE_MARGIN_SECS,
        ),
        max_db_seconds <= 5 ==> r == 7,
        5 < max_db_seconds <= u64::MAX - 2 ==> r == max_db_seconds + 2,
{
    let granted: u64 = if max_db_seconds > LEAST_DATABASE_SECS {
        max_db_seconds
    } else {
        LEAST_DATABASE_SECS
    };
    granted.saturating_add(DATABASE_MARGIN_SECS)
}

/// How to log in to the database of a store.
#[derive(Debug, Clone)]
pub struct DatabaseLogin {
    pub host: String,
    pub name: String,
    pub user: String,
    pub password: Option<String>,
}

/// What a [`DatabaseLogin`] holds.
#[verifier::ext_equal]
pub struct DatabaseLoginView {
    pub host: Seq<char>,
    pub name: Seq<char>,
    pub user: Seq<char>,
    pub password: Option<Seq<char>>,
}

impl View for DatabaseLogin {
    type V = DatabaseLoginView;

    open spec fn view(&self) -> DatabaseLoginView {
        DatabaseLoginView {
            host: self.host@,
            name: self.name@,
            user: self.user@,
            password: text::text_opt(self.password),
        }
    }
}

/// Where to look for a reverse proxy.
#[derive(Debug, Clone)]
pub enum ProxyProbe {
    /// At an address, over HTTP.
    Address(Endpoint),
    /// In the headers of the storefront.
    Storefront(HttpTarget),
    /// Nothing tells where a proxy is, so none is looked for.
    Nowhere,
}

/// What a [`ProxyProbe`] says.
pub enum ProxyProbeView {
    Address(EndpointView),
    Storefront(HttpTargetView),
    Nowhere,
}

impl View for ProxyProbe {
    type V = ProxyProbeView;

    open spec fn view(&self) -> ProxyProbeView {
        match self {
            ProxyProbe::Address(e) => ProxyProbeView::Address(e@),
            ProxyProbe::Storefront(t) => ProxyProbeView::Storefront(t@),
            ProxyProbe::Nowhere => ProxyProbeView::Nowhere,
        }
    }
}

/// The services to probe.
#[derive(Debug, Clone)]
pub struct ProbePlan {
    pub database: Option<DatabaseLogin>,
    pub fpm_status: Option<HttpTarget>,
    pub nginx_status: Option<HttpTarget>,
    pub redis_password: Option<String>,
    pub redis_cache: Option<Endpoint>,
    pub redis_session: Option<Endpoint>,
    pub opensearch: Option<Endpoint>,
    pub opensearch_auth: Option<String>,
    pub proxy: ProxyProbe,
}

/// What a [`ProbePlan`] holds.
#[verifier::ext_equal]
pub struct ProbePlanView {
    pub database: Option<DatabaseLoginView>,
    pub fpm_status: Option<HttpTargetView>,
    pub nginx_status: Option<HttpTargetView>,
    pub redis_password: Option<Seq<char>>,
    pub redis_cache: Option<EndpointView>,
    pub redis_session: Option<EndpointView>,
    pub opensearch: Option<EndpointView>,
    pub opensearch_auth: Option<Seq<char>>,
    pub proxy: ProxyProbeView,
}

impl View for ProbePlan {
    type V = ProbePlanView;

    open spec fn view(&self) -> ProbePlanView {
        ProbePlanView {
            database: match self.database {
                Some(v) => Some(v@),
                None => None,
            },
            fpm_status: match self.fpm_status {
                Some(v) => Some(v@),
                None => None,
            },
            nginx_status: match self.nginx_status {
                Some(v) => Some(v@),
                None => None,
            },
            redis_password: text::text_opt(self.redis_password),
            redis_cache: match self.redis_cache {
                Some(v) => Some(v@),
                None => None,
            },
            redis_session: match self.redis_session {
                Some(v) => Some(v@),
                None => None,
            },
            opensearch: match self.opensearch {
                Some(v) => Some(v@),
                None => None,
            },
            opensearch_auth: text::text_opt(self.opensearch_auth),
            proxy: self.proxy@,
        }
    }
}

/// The address in a value of `env.php`; anything unusable is ignored.
pub open spec fn env_endpoint(raw: Option<Seq<char>>) -> Option<EndpointView> {
    match raw {
        Some(text) => match endpoints::endpoint_parsed(text, DEFAULT_REDIS_PORT) {
            Ok(e) => Some(e),
            Err(_) => None,
        },
        None => None,
    }
}

/// What an optional address holds.
pub open spec fn endpoint_opt(e: Option<Endpoint>) -> Option<EndpointView> {
    match e {
        Some(e) => Some(e@),
        None => None,
    }
}

/// What an optional page holds.
pub open spec fn target_opt(t: Option<HttpTarget>) -> Option<HttpTargetView> {
    match t {
        Some(t) => Some(t@),
        None => None,
    }
}

/// Parses a `host:port` value discovered in env.php, ignoring anything unusable.
pub fn endpoint_from_env(raw: &Option<String>) -> (r: Option<Endpoint>)
    ensures
        endpoint_opt(r) == env_endpoint(text::text_opt(*raw)),
{
    match raw {
        Some(text) => match Endpoint::parse(text, DEFAULT_REDIS_PORT) {
            Ok(e) => Some(e),
            Err(_) => None,
        },
        None => None,
    }
}

/// The search node that `env.php` names. It keeps host and port in separate keys.
pub open spec fn env_search(env: SanitizedEnvConfigView) -> Option<EndpointView> {
    match env.opensearch_host {
        Some(host) => {
            let port = match env.opensearch_port {
                Some(p) => p,
                None => DEFAULT_OPENSEARCH_PORT,
            };
            match endpoints::endpoint_parsed(host, port) {
                Ok(e) => Some(
                    if text::has_char(host, ':') {
                        e
                    } else {
                        EndpointView { port, ..e }
                    },
                ),
                Err(_) => None,
            }
        },
        None => None,
    }
}

fn search_from_env(env: &SanitizedEnvConfig) -> (r: Option<Endpoint>)
    ensures
        endpoint_opt(r) == env_search(env@),
{
    match &env.opensearch_host {
        Some(host) => {
            let port: u16 = match env.opensearch_port {
                Some(p) => p,
                None => DEFAULT_OPENSEARCH_PORT,
            };
            match Endpoint::parse(host, port) {
                Ok(e) => if contains_char(host, ':') {
                    Some(e)
                } else {
                    Some(Endpoint { port, ..e })
                },
                Err(_) => None,
            }
        },
        None => None,
    }
}

/// Where to look for a reverse proxy: at the address given, else in the headers of the
/// storefront given, else at the first cache host of `env.php`.
pub open spec fn proxy_plan(
    env: SanitizedEnvConfigView,
    targets: RemoteTargetsView,
) -> ProxyProbeView {
    match (targets.varnish, targets.storefront_url) {
        (Some(e), _) => ProxyProbeView::Address(e),
        (None, Some(t)) => ProxyProbeView::Storefront(t),
        (None, None) => if env.http_cache_hosts.len() > 0 {
            match endpoints::endpoint_parsed(env.http_cache_hosts[0], DEFAULT_VARNISH_PORT) {
                Ok(e) => ProxyProbeView::Address(e),
                Err(_) => ProxyProbeView::Nowhere,
            }
        } else {
            ProxyProbeView::Nowhere
        },
    }
}

fn plan_proxy(env: &SanitizedEnvConfig, targets: &RemoteTargets) -> (r: ProxyProbe)
    ensures
        r@ == proxy_plan(env@, targets@),
{
    if let Some(e) = &targets.varnish {
        return ProxyProbe::Address(e.copy());
    }
    if let Some(t) = &targets.storefront_url {
        return ProxyProbe::Storefront(t.copy());
    }
    if env.http_cache_hosts.len() > 0 {
        assert(env@.http_cache_hosts[0] == env.http_cache_hosts@[0]@);
        match Endpoint::parse(&env.http_cache_hosts[0], DEFAULT_VARNISH_PORT) {
            Ok(e) => ProxyProbe::Address(e),
            Err(_) => ProxyProbe::Nowhere,
        }
    } else {
        ProxyProbe::Nowhere
    }
}

/// The services to probe. An override wins over `env.php`, which is what lets a run from a
/// jump host reach instances that `env.php` names by an internal address.
pub open spec fn plan_of(
    env: SanitizedEnvConfigView,
    parsed: ParsedEnvView,
    targets: RemoteTargetsView,
) -> ProbePlanView {
    ProbePlanView {
        database: match (env.db_host, env.db_name, env.db_user) {
            (Some(host), Some(name), Some(user)) => Some(
                DatabaseLoginView { host, name, user, password: parsed.raw_db_password },
            ),
            _ => None,
        },
        fpm_status: targets.fpm_status_url,
        nginx_status: targets.nginx_status_url,
        redis_password: endpoints::overlaid(parsed.raw_redis_password, targets.redis_password),
        redis_cache: endpoints::overlaid(env_endpoint(env.redis_cache_host), targets.redis_cache),
        redis_session: endpoints::overlaid(env_endpoint(env.redis_session_host), targets.redis_session),
        opensearch: endpoints::overlaid(env_search(env), targets.opensearch),
        opensearch_auth: targets.opensearch_auth,
        proxy: proxy_plan(env, targets),
    }
}

fn copy_target(t: &Option<HttpTarget>) -> (r: Option<HttpTarget>)
    ensures
        target_opt(r) == target_opt(*t),
{
    match t {
        Some(t) => Some(t.copy()),
        None => None,
    }
}

/// Plans which services to probe.
pub fn plan_probes(env: &SanitizedEnvConfig, parsed: &ParsedEnv, targets: &RemoteTargets) -> (r:
    ProbePlan)
    ensures
        r@ == plan_of(env@, parsed@, targets@),
{
    let database = match (&env.db_host, &env.db_name, &env.db_user) {
        (Some(host), Some(name), Some(user)) => Some(
            DatabaseLogin {
                host: host.clone(),
                name: name.clone(),
                user: user.clone(),
                password: copy_opt(&parsed.raw_db_password),
            },
        ),
        _ => None,
    };
    let redis_password = match &targets.redis_password {
        Some(p) => Some(p.clone()),
        None => copy_opt(&parsed.raw_redis_password),
    };
    let redis_cache = match &targets.redis_cache {
        Some(e) => Some(e.copy()),
        None => endpoint_from_env(&env.redis_cache_host),
    };
    let redis_session = match &targets.redis_session {
        Some(e) => Some(e.copy()),
        None => endpoint_from_env(&env.redis_session_host),
    };
    let opensearch = match &targets.opensearch {
        Some(e) => Some(e.copy()),
        None => search_from_env(env),
    };
    ProbePlan {
        database,
        fpm_status: copy_target(&targets.fpm_status_url),
        nginx_status: copy_target(&targets.nginx_status_url),
        redis_password,
        redis_cache,
        redis_session,
        opensearch,
        opensearch_auth: copy_opt(&targets.opensearch_auth),
        proxy: plan_proxy(env, targets),
    }
}

/// What the probes of a plan found. A service that was not probed has no result.
#[derive(Debug)]
pub struct ProbeResults {
    pub database: Option<DatabaseMetrics>,
    pub local_fpm: PhpWorkerMetrics,
    pub remote_fpm: Option<PhpWorkerMetrics>,
    pub nginx: Option<NginxStatus>,
    pub redis_cache: Option<RedisStatus>,
    pub redis_session: Option<RedisStatus>,
    pub opensearch: Option<OpenSearchStatus>,
    pub proxy: Option<VarnishProbeResult>,
}

/// A result, or what was known without it.
pub open spec fn found_or<T>(found: Option<T>, before: T) -> T {
    match found {
        Some(v) => v,
        None => before,
    }
}

/// What is known of the PHP workers: the scoreboard knows the live numbers, local config knows
/// `pm.max_children` and the host knows its RAM.
pub open spec fn workers_found(results: ProbeResults) -> PhpWorkerMetricsView {
    match results.remote_fpm {
        Some(remote) => php_fpm_inspector::sized(remote@, results.local_fpm@),
        None => results.local_fpm@,
    }
}

/// What is known of a proxy.
pub open spec fn proxy_found(results: ProbeResults) -> VarnishProbeResultView {
    match results.proxy {
        Some(probe) => probe@,
        None => VarnishProbeResultView::unset(),
    }
}

/// Adds what the probes found to the model of a store. What was not probed stays as it was.
pub fn apply_probes(installation: MagentoInstallation, results: ProbeResults) -> (r:
    MagentoInstallation)
    ensures
        r.root == installation.root,
        r.env_config == installation.env_config,
        r.modules == installation.modules,
        r.plugins == installation.plugins,
        r.declared_tables == installation.declared_tables,
        r.is_valid() == installation.is_valid(),
        r.database_metrics == found_or(results.database, installation.database_metrics),
        r.runtime.php_workers@ == workers_found(results),
        r.runtime.nginx == found_or(results.nginx, installation.runtime.nginx),
        r.runtime.redis_default == found_or(
            results.redis_cache,
            installation.runtime.redis_default,
        ),
        r.runtime.redis_session == found_or(
            results.redis_session,
            installation.runtime.redis_session,
        ),
        r.runtime.opensearch == found_or(results.opensearch, installation.runtime.opensearch),
        r.runtime.fpc@ == fpc_inspector::fpc_of(
            installation.env_config@,
            installation.runtime.fpc@.uncacheable_blocks,
            proxy_found(results),
        ),
{
    let ghost blocks = installation.runtime.fpc@.uncacheable_blocks;
    let php_workers = match results.remote_fpm {
        Some(remote) => merge_local_sizing(remote, &results.local_fpm),
        None => results.local_fpm,
    };
    let probe = match results.proxy {
        Some(probe) => probe,
        None => VarnishProbeResult::default(),
    };
    assert(model::block_views(installation.runtime.fpc.uncacheable_blocks@) =~= blocks);
    let fpc = evaluate_fpc(
        &installation.env_config,
        installation.runtime.fpc.uncacheable_blocks,
        probe,
    );
    MagentoInstallation {
        root: installation.root,
        env_config: installation.env_config,
        modules: installation.modules,
        plugins: installation.plugins,
        declared_tables: installation.declared_tables,
        database_metrics: match results.database {
            Some(metrics) => metrics,
            None => installation.database_metrics,
        },
        runtime: RuntimeMetrics {
            php_workers,
            nginx: match results.nginx {
                Some(status) => status,
                None => installation.runtime.nginx,
            },
            redis_default: match results.redis_cache {
                Some(status) => status,
                None => installation.runtime.redis_default,
            },
            redis_session: match results.redis_session {
                Some(status) => status,
                None => installation.runtime.redis_session,
            },
            opensearch: match results.opensearch {
                Some(status) => status,
                None => installation.runtime.opensearch,
            },
            fpc,
        },
    }
}

/// Completes the model of a store without probing: keeps the statically parsed layout
/// punctures, and records what env.php says about Varnish.
pub fn apply_offline(installation: MagentoInstallation) -> (r: MagentoInstallation)
    ensures
        r.root == installation.root,
        r.env_config == installation.env_config,
        r.modules == installation.modules,
        r.plugins == installation.plugins,
        r.declared_tables == installation.declared_tables,
        r.is_valid() == installation.is_valid(),
        r.database_metrics == installation.database_metrics,
        r.runtime.php_workers == installation.runtime.php_workers,
        r.runtime.nginx == installation.runtime.nginx,
        r.runtime.redis_default == installation.runtime.redis_default,
        r.runtime.redis_session == installation.runtime.redis_session,
        r.runtime.opensearch == installation.runtime.opensearch,
        r.runtime.fpc@ == fpc_inspector::fpc_of(
            installation.env_config@,
            installation.runtime.fpc@.uncacheable_blocks,
            VarnishProbeResultView::unset(),
        ),
{
    assert(model::block_views(installation.runtime.fpc.uncacheable_blocks@)
        =~= installation.runtime.fpc@.uncacheable_blocks);
    let fpc = evaluate_fpc(
        &installation.env_config,
        installation.runtime.fpc.uncacheable_blocks,
        VarnishProbeResult::default(),
    );
    MagentoInstallation {
        root: installation.root,
        env_config: installation.env_config,
        modules: installation.modules,
        plugins: installation.plugins,
        declared_tables: installation.declared_tables,
        database_metrics: installation.database_metrics,
        runtime: RuntimeMetrics {
            php_workers: installation.runtime.php_workers,
            nginx: installation.runtime.nginx,
            redis_default: installation.runtime.redis_default,
            redis_session: installation.runtime.redis_session,
            opensearch: installation.runtime.opensearch,
            fpc,
        },
    }
}

/// A service is probed only where an override or `env.php` says: nothing is ever looked for
/// at an address that nobody named.
pub proof fn law_nothing_is_probed_unasked(
    env: SanitizedEnvConfigView,
    parsed: ParsedEnvView,
    targets: RemoteTargetsView,
)
    ensures
        ({
            let plan = plan_of(env, parsed, targets);
            &&& plan.fpm_status == targets.fpm_status_url
            &&& plan.nginx_status == targets.nginx_status_url
            &&& plan.database is Some ==> env.db_host is Some
            &&& plan.redis_cache is Some ==> targets.redis_cache is Some || env.redis_cache_host
                is Some
            &&& plan.redis_session is Some ==> targets.redis_session is Some
                || env.redis_session_host is Some
            &&& plan.opensearch is Some ==> targets.opensearch is Some || env.opensearch_host is Some
            &&& !(plan.proxy is Nowhere) ==> targets.varnish is Some || targets.storefront_url
                is Some || env.http_cache_hosts.len() > 0
        }),
{
}

/// An override is probed in place of what `env.php` names.
pub proof fn law_overrides_win_over_env(
    env: SanitizedEnvConfigView,
    parsed: ParsedEnvView,
    targets: RemoteTargetsView,
)
    ensures
        ({
            let plan = plan_of(env, parsed, targets);
            &&& targets.redis_cache is Some ==> plan.redis_cache == targets.redis_cache
            &&& targets.redis_session is Some ==> plan.redis_session == targets.redis_session
            &&& targets.opensearch is Some ==> plan.opensearch == targets.opensearch
            &&& targets.redis_password is Some ==> plan.redis_password == targets.redis_password
            &&& targets.varnish matches Some(e) ==> plan.proxy == ProxyProbeView::Address(e)
        }),
{
}

/// Where each probe goes: an override where there is one, and otherwise what `env.php` names,
/// read with the default port of the service.
pub proof fn law_where_probes_go(
    env: SanitizedEnvConfigView,
    parsed: ParsedEnvView,
    targets: RemoteTargetsView,
)
    ensures
        ({
            let plan = plan_of(env, parsed, targets);
            let cache = endpoints::endpoint_parsed(env.redis_cache_host->0, 6379);
            let session = endpoints::endpoint_parsed(env.redis_session_host->0, 6379);
            let proxy = endpoints::endpoint_parsed(env.http_cache_hosts[0], 6081);
            &&& targets.redis_cache is None ==> plan.redis_cache == if env.redis_cache_host is Some
                && cache is Ok {
                Some(cache->Ok_0)
            } else {
                None
            }
            &&& targets.redis_session is None ==> plan.redis_session
                == if env.redis_session_host is Some && session is Ok {
                Some(session->Ok_0)
            } else {
                None
            }
            &&& targets.redis_password is None ==> plan.redis_password == parsed.raw_redis_password
            &&& plan.opensearch_auth == targets.opensearch_auth
            &&& targets.varnish is None && targets.storefront_url is Some ==> plan.proxy
                == ProxyProbeView::Storefront(targets.storefront_url->0)
            &&& targets.varnish is None && targets.storefront_url is None ==> plan.proxy
                == if env.http_cache_hosts.len() > 0 && proxy is Ok {
                ProxyProbeView::Address(proxy->Ok_0)
            } else {
                ProxyProbeView::Nowhere
            }
            &&& plan.database is Some <==> env.db_host is Some && env.db_name is Some
                && env.db_user is Some
            &&& plan.database is Some ==> (plan.database->0).host == env.db_host->0 && (
            plan.database->0).name == env.db_name->0 && (plan.database->0).user == env.db_user->0
                && (plan.database->0).password == parsed.raw_db_password
        }),
{
}

/// The search cluster of `env.php` is asked at the port set for it, or at 9200, unless its
/// host names a port of its own.
pub proof fn law_search_port(
    env: SanitizedEnvConfigView,
    parsed: ParsedEnvView,
    targets: RemoteTargetsView,
)
    requires
        targets.opensearch is None,
    ensures
        ({
            let plan = plan_of(env, parsed, targets);
            let port = match env.opensearch_port {
                Some(p) => p,
                None => 9200,
            };
            let read = endpoints::endpoint_parsed(env.opensearch_host->0, port);
            &&& env.opensearch_host is None ==> plan.opensearch is None
            &&& env.opensearch_host is Some && read is Err ==> plan.opensearch is None
            &&& env.opensearch_host is Some && read is Ok ==> {
                &&& plan.opensearch is Some
                &&& (plan.opensearch->0).host == read->Ok_0.host
                &&& (plan.opensearch->0).port == if text::has_char(env.opensearch_host->0, ':') {
                    read->Ok_0.port
                } else {
                    port
                }
            }
        }),
{
}

/// A service that was probed is reported as the probe found it, and one that was not as
/// before; workers read from a status page are sized by what the host says of the pool.
pub proof fn law_probes_replace_what_was_known<T>(
    found: T,
    before: T,
    results: ProbeResults,
)
    ensures
        found_or(Some(found), before) == found,
        found_or(None, before) == before,
        results.remote_fpm is None ==> workers_found(results) == results.local_fpm@,
        results.remote_fpm matches Some(remote) ==> (!remote.is_detected ==> workers_found(results)
            == remote@),
        results.remote_fpm matches Some(remote) ==> workers_found(results).active_workers
            == remote.active_workers && workers_found(results).listen_queue == remote.listen_queue,
        results.proxy is None ==> !proxy_found(results).identified_as_varnish,
        results.proxy matches Some(probe) ==> proxy_found(results) == probe@,
{
}

} // verus!
