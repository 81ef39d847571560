//! The command-line flags that say where each service lives.

use crate::endpoints::{
    self, Endpoint, EndpointError, EndpointErrorView, EndpointView, HttpTarget, HttpTargetView,
    RemoteTargets, RemoteTargetsView,
};
use crate::fpc_inspector::DEFAULT_VARNISH_PORT;
use crate::opensearch_inspector::DEFAULT_OPENSEARCH_PORT;
use crate::redis_inspector::DEFAULT_REDIS_PORT;
use crate::text::{self, copy_opt};
use vstd::prelude::*;
use vstd::string::*;

verus! {

/// Where each service lives, for clustered stores and jump-host runs, as given on the command
/// line.
#[derive(Debug, Clone)]
pub struct EndpointArgs {
    pub varnish: Option<String>,
    pub fpm_status: Option<String>,
    pub fpm_conf: Option<String>,
    pub nginx_status: Option<String>,
    pub redis_cache: Option<String>,
    pub redis_session: Option<String>,
    pub redis_page_cache: Option<String>,
    pub redis_password: Option<String>,
    pub opensearch: Option<String>,
    pub opensearch_auth: Option<String>,
    pub storefront_url: Option<String>,
}

/// The port of a status page or storefront without one.
pub const DEFAULT_HTTP_PORT: u16 = 80;

/// What is said of a malformed flag.
pub open spec fn flag_error(flag: Seq<char>, error: EndpointErrorView) -> Seq<char> {
    "--"@ + flag + ": "@ + error.described()
}

/// The address that a flag gives, if it is there.
pub open spec fn endpoint_flag(raw: Option<String>, default_port: u16, flag: Seq<char>) -> Result<
    Option<EndpointView>,
    Seq<char>,
> {
    match raw {
        Some(v) => match endpoints::endpoint_parsed(v@, default_port) {
            Ok(e) => Ok(Some(e)),
            Err(e) => Err(flag_error(flag, e)),
        },
        None => Ok(None),
    }
}

/// The page that a flag gives, if it is there.
pub open spec fn target_flag(raw: Option<String>, default_port: u16, flag: Seq<char>) -> Result<
    Option<HttpTargetView>,
    Seq<char>,
> {
    match raw {
        Some(v) => match endpoints::target_parsed(v@, default_port) {
            Ok(t) => Ok(Some(t)),
            Err(e) => Err(flag_error(flag, e)),
        },
        None => Ok(None),
    }
}

/// What a flag of an address came to.
pub open spec fn endpoint_flag_view(r: Result<Option<Endpoint>, String>) -> Result<
    Option<EndpointView>,
    Seq<char>,
> {
    match r {
        Ok(Some(e)) => Ok(Some(e@)),
        Ok(None) => Ok(None),
        Err(e) => Err(e@),
    }
}

/// What a flag of a page came to.
pub open spec fn target_flag_view(r: Result<Option<HttpTarget>, String>) -> Result<
    Option<HttpTargetView>,
    Seq<char>,
> {
    match r {
        Ok(Some(t)) => Ok(Some(t@)),
        Ok(None) => Ok(None),
        Err(e) => Err(e@),
    }
}

fn word_error(flag: &str, error: &EndpointError) -> (r: String)
    ensures
        r@ == flag_error(flag@, error@),
{
    "--".to_owned().concat(flag).concat(": ").concat(error.describe().as_str())
}

fn read_endpoint(raw: &Option<String>, default_port: u16, flag: &str) -> (r: Result<
    Option<Endpoint>,
    String,
>)
    ensures
        endpoint_flag_view(r) == endpoint_flag(*raw, default_port, flag@),
{
    match raw {
        Some(v) => match Endpoint::parse(v, default_port) {
            Ok(e) => Ok(Some(e)),
            Err(e) => Err(word_error(flag, &e)),
        },
        None => Ok(None),
    }
}

fn read_target(raw: &Option<String>, default_port: u16, flag: &str) -> (r: Result<
    Option<HttpTarget>,
    String,
>)
    ensures
        target_flag_view(r) == target_flag(*raw, default_port, flag@),
{
    match raw {
        Some(v) => match HttpTarget::parse(v, default_port) {
            Ok(t) => Ok(Some(t)),
            Err(e) => Err(word_error(flag, &e)),
        },
        None => Ok(None),
    }
}

/// The error of a flag, if it is malformed.
pub open spec fn error_in<T>(r: Result<T, Seq<char>>) -> Option<Seq<char>> {
    match r {
        Ok(_) => None,
        Err(e) => Some(e),
    }
}

/// The first of two errors.
pub open spec fn first_of(a: Option<Seq<char>>, b: Option<Seq<char>>) -> Option<Seq<char>> {
    if a is Some {
        a
    } else {
        b
    }
}

/// The value of a flag that is not malformed.
pub open spec fn value_in<T>(r: Result<Option<T>, Seq<char>>) -> Option<T> {
    match r {
        Ok(v) => v,
        Err(_) => None,
    }
}

impl EndpointArgs {
    pub open spec fn varnish_flag(self) -> Result<Option<EndpointView>, Seq<char>> {
        endpoint_flag(self.varnish, DEFAULT_VARNISH_PORT, "varnish"@)
    }

    pub open spec fn fpm_flag(self) -> Result<Option<HttpTargetView>, Seq<char>> {
        target_flag(self.fpm_status, DEFAULT_HTTP_PORT, "fpm-status"@)
    }

    pub open spec fn nginx_flag(self) -> Result<Option<HttpTargetView>, Seq<char>> {
        target_flag(self.nginx_status, DEFAULT_HTTP_PORT, "nginx-status"@)
    }

    pub open spec fn cache_flag(self) -> Result<Option<EndpointView>, Seq<char>> {
        endpoint_flag(self.redis_cache, DEFAULT_REDIS_PORT, "redis-cache"@)
    }

    pub open spec fn session_flag(self) -> Result<Option<EndpointView>, Seq<char>> {
        endpoint_flag(self.redis_session, DEFAULT_REDIS_PORT, "redis-session"@)
    }

    pub open spec fn page_cache_flag(self) -> Result<Option<EndpointView>, Seq<char>> {
        endpoint_flag(self.redis_page_cache, DEFAULT_REDIS_PORT, "redis-page-cache"@)
    }

    pub open spec fn opensearch_flag(self) -> Result<Option<EndpointView>, Seq<char>> {
        endpoint_flag(self.opensearch, DEFAULT_OPENSEARCH_PORT, "opensearch"@)
    }

    pub open spec fn storefront_flag(self) -> Result<Option<HttpTargetView>, Seq<char>> {
        target_flag(self.storefront_url, DEFAULT_HTTP_PORT, "storefront-url"@)
    }

    /// What is said of the first malformed flag.
    pub open spec fn first_error(self) -> Option<Seq<char>> {
        first_of(
            error_in(self.varnish_flag()),
            first_of(
                error_in(self.fpm_flag()),
                first_of(
                    error_in(self.nginx_flag()),
                    first_of(
                        error_in(self.cache_flag()),
                        first_of(
                            error_in(self.session_flag()),
                            first_of(
                                error_in(self.page_cache_flag()),
                                first_of(
                                    error_in(self.opensearch_flag()),
                                    error_in(self.storefront_flag()),
                                ),
                            ),
                        ),
                    ),
                ),
            ),
        )
    }

    /// The overrides that flags give, when none is malformed.
    pub open spec fn targets(self) -> RemoteTargetsView {
        RemoteTargetsView {
            varnish: value_in(self.varnish_flag()),
            fpm_status_url: value_in(self.fpm_flag()),
            fpm_conf: text::text_opt(self.fpm_conf),
            nginx_status_url: value_in(self.nginx_flag()),
            redis_cache: value_in(self.cache_flag()),
            redis_session: value_in(self.session_flag()),
            redis_page_cache: value_in(self.page_cache_flag()),
            opensearch: value_in(self.opensearch_flag()),
            storefront_url: value_in(self.storefront_flag()),
            redis_password: text::text_opt(self.redis_password),
            opensearch_auth: text::text_opt(self.opensearch_auth),
        }
    }

    /// Converts the flags into overrides, reporting the first malformed value.
    pub fn to_targets(&self) -> (r: Result<RemoteTargets, String>)
        ensures
            match r {
                Ok(t) => self.first_error() is None && t@ == self.targets(),
                Err(e) => self.first_error() == Some(e@),
            },
    {
        let varnish = match read_endpoint(&self.varnish, DEFAULT_VARNISH_PORT, "varnish") {
            Ok(v) => v,
            Err(e) => {
                return Err(e);
            },
        };
        let fpm_status_url = match read_target(&self.fpm_status, DEFAULT_HTTP_PORT, "fpm-status") {
            Ok(v) => v,
            Err(e) => {
                return Err(e);
            },
        };
        let nginx_status_url = match read_target(
            &self.nginx_status,
            DEFAULT_HTTP_PORT,
            "nginx-status",
        ) {
            Ok(v) => v,
            Err(e) => {
                return Err(e);
            },
        };
        let redis_cache = match read_endpoint(
            &self.redis_cache,
            DEFAULT_REDIS_PORT,
            "redis-cache",
        ) {
            Ok(v) => v,
            Err(e) => {
                return Err(e);
            },
        };
        let redis_session = match read_endpoint(
            &self.redis_session,
            DEFAULT_REDIS_PORT,
            "redis-session",
        ) {
            Ok(v) => v,
            Err(e) => {
                return Err(e);
            },
        };
        let redis_page_cache = match read_endpoint(
            &self.redis_page_cache,
            DEFAULT_REDIS_PORT,
            "redis-page-cache",
        ) {
            Ok(v) => v,
            Err(e) => {
                return Err(e);
            },
        };
        let opensearch = match read_endpoint(
            &self.opensearch,
            DEFAULT_OPENSEARCH_PORT,
            "opensearch",
        ) {
            Ok(v) => v,
            Err(e) => {
                return Err(e);
            },
        };
        let storefront_url = match read_target(
            &self.storefront_url,
            DEFAULT_HTTP_PORT,
            "storefront-url",
        ) {
            Ok(v) => v,
            Err(e) => {
                return Err(e);
            },
        };
        Ok(
            RemoteTargets {
                varnish,
                fpm_status_url,
                fpm_conf: copy_opt(&self.fpm_conf),
                nginx_status_url,
                redis_cache,
                redis_session,
                redis_page_cache,
                opensearch,
                storefront_url,
                redis_password: copy_opt(&self.redis_password),
                opensearch_auth: copy_opt(&self.opensearch_auth),
            },
        )
    }
}

/// What the overlay of one set of overrides on another holds.
pub open spec fn overlaid_views(base: RemoteTargetsView, other: RemoteTargetsView) ->
    RemoteTargetsView {
    RemoteTargetsView {
        varnish: endpoints::overlaid(base.varnish, other.varnish),
        fpm_status_url: endpoints::overlaid(base.fpm_status_url, other.fpm_status_url),
        fpm_conf: endpoints::overlaid(base.fpm_conf, other.fpm_conf),
        nginx_status_url: endpoints::overlaid(base.nginx_status_url, other.nginx_status_url),
        redis_cache: endpoints::overlaid(base.redis_cache, other.redis_cache),
        redis_session: endpoints::overlaid(base.redis_session, other.redis_session),
        redis_page_cache: endpoints::overlaid(base.redis_page_cache, other.redis_page_cache),
        opensearch: endpoints::overlaid(base.opensearch, other.opensearch),
        storefront_url: endpoints::overlaid(base.storefront_url, other.storefront_url),
        redis_password: endpoints::overlaid(base.redis_password, other.redis_password),
        opensearch_auth: endpoints::overlaid(base.opensearch_auth, other.opensearch_auth),
    }
}

/// Resolves endpoint overrides from a file, if one was loaded, and the command line.
///
/// File values are the baseline; explicit flags win, so a checked-in file can describe the
/// cluster while a flag overrides one service for a single run. A file that cannot be used is
/// an error, not a silent fallback to local discovery.
pub fn resolve_targets(
    args: &EndpointArgs,
    loaded: Option<Result<RemoteTargets, EndpointError>>,
) -> (r: Result<RemoteTargets, String>)
    ensures
        match loaded {
            Some(Err(e)) => r matches Err(m) && m@ == e@.described(),
            Some(Ok(base)) => match r {
                Ok(t) => args.first_error() is None && t@ == overlaid_views(base@, args.targets()),
                Err(m) => args.first_error() == Some(m@),
            },
            None => match r {
                Ok(t) => args.first_error() is None && t@ == args.targets(),
                Err(m) => args.first_error() == Some(m@),
            },
        },
{
    let mut targets = match loaded {
        Some(Ok(base)) => base,
        Some(Err(e)) => {
            return Err(e.describe());
        },
        None => RemoteTargets::default(),
    };
    match args.to_targets() {
        Ok(flags) => {
            targets.overlay(flags);
            Ok(targets)
        },
        Err(e) => Err(e),
    }
}

/// A flag wins over the file, and what no flag names stays as the file has it.
pub proof fn law_flags_win_over_the_file(base: RemoteTargetsView, args: EndpointArgs)
    ensures
        ({
            let t = overlaid_views(base, args.targets());
            &&& args.varnish is None ==> t.varnish == base.varnish
            &&& args.targets().varnish is Some ==> t.varnish == args.targets().varnish
            &&& args.fpm_status is None ==> t.fpm_status_url == base.fpm_status_url
            &&& args.targets().fpm_status_url is Some ==> t.fpm_status_url
                == args.targets().fpm_status_url
            &&& args.fpm_conf is None ==> t.fpm_conf == base.fpm_conf
            &&& args.fpm_conf is Some ==> t.fpm_conf == text::text_opt(args.fpm_conf)
            &&& args.nginx_status is None ==> t.nginx_status_url == base.nginx_status_url
            &&& args.targets().nginx_status_url is Some ==> t.nginx_status_url
                == args.targets().nginx_status_url
            &&& args.redis_cache is None ==> t.redis_cache == base.redis_cache
            &&& args.targets().redis_cache is Some ==> t.redis_cache == args.targets().redis_cache
            &&& args.redis_session is None ==> t.redis_session == base.redis_session
            &&& args.targets().redis_session is Some ==> t.redis_session
                == args.targets().redis_session
            &&& args.redis_page_cache is None ==> t.redis_page_cache == base.redis_page_cache
            &&& args.targets().redis_page_cache is Some ==> t.redis_page_cache
                == args.targets().redis_page_cache
            &&& args.opensearch is None ==> t.opensearch == base.opensearch
            &&& args.targets().opensearch is Some ==> t.opensearch == args.targets().opensearch
            &&& args.storefront_url is None ==> t.storefront_url == base.storefront_url
            &&& args.targets().storefront_url is Some ==> t.storefront_url
                == args.targets().storefront_url
            &&& args.redis_password is None ==> t.redis_password == base.redis_password
            &&& args.redis_password is Some ==> t.redis_password == text::text_opt(args.redis_password)
            &&& args.opensearch_auth is None ==> t.opensearch_auth == base.opensearch_auth
            &&& args.opensearch_auth is Some ==> t.opensearch_auth == text::text_opt(
                args.opensearch_auth,
            )
        }),
{
}

/// Without an error each target is what its flag says, read with the default port of the
/// service: 6081 for Varnish, 6379 for Redis, 9200 for OpenSearch and 80 for a page.
pub proof fn law_default_ports(args: EndpointArgs)
    requires
        args.first_error() is None,
    ensures
        ({
            let t = args.targets();
            &&& args.varnish is None ==> t.varnish is None
            &&& args.varnish matches Some(v) ==> endpoints::endpoint_parsed(v@, 6081) is Ok && t.varnish
                == Some(endpoints::endpoint_parsed(v@, 6081)->Ok_0)
            &&& args.fpm_status is None ==> t.fpm_status_url is None
            &&& args.fpm_status matches Some(v) ==> endpoints::target_parsed(v@, 80) is Ok && t.fpm_status_url
                == Some(endpoints::target_parsed(v@, 80)->Ok_0)
            &&& args.nginx_status is None ==> t.nginx_status_url is None
            &&& args.nginx_status matches Some(v) ==> endpoints::target_parsed(v@, 80) is Ok && t.nginx_status_url
                == Some(endpoints::target_parsed(v@, 80)->Ok_0)
            &&& args.redis_cache is None ==> t.redis_cache is None
            &&& args.redis_cache matches Some(v) ==> endpoints::endpoint_parsed(v@, 6379) is Ok && t.redis_cache
                == Some(endpoints::endpoint_parsed(v@, 6379)->Ok_0)
            &&& args.redis_session is None ==> t.redis_session is None
            &&& args.redis_session matches Some(v) ==> endpoints::endpoint_parsed(v@, 6379) is Ok && t.redis_session
                == Some(endpoints::endpoint_parsed(v@, 6379)->Ok_0)
            &&& args.redis_page_cache is None ==> t.redis_page_cache is None
            &&& args.redis_page_cache matches Some(v) ==> endpoints::endpoint_parsed(v@, 6379) is Ok && t.redis_page_cache
                == Some(endpoints::endpoint_parsed(v@, 6379)->Ok_0)
            &&& args.opensearch is None ==> t.opensearch is None
            &&& args.opensearch matches Some(v) ==> endpoints::endpoint_parsed(v@, 9200) is Ok && t.opensearch
                == Some(endpoints::endpoint_parsed(v@, 9200)->Ok_0)
            &&& args.storefront_url is None ==> t.storefront_url is None
            &&& args.storefront_url matches Some(v) ==> endpoints::target_parsed(v@, 80) is Ok && t.storefront_url
                == Some(endpoints::target_parsed(v@, 80)->Ok_0)
            &&& t.fpm_conf == text::text_opt(args.fpm_conf)
            &&& t.redis_password == text::text_opt(args.redis_password)
            &&& t.opensearch_auth == text::text_opt(args.opensearch_auth)
        }),
{
}

/// There is an error exactly where a flag cannot be read, and it names the first such flag.
pub proof fn law_first_bad_flag(args: EndpointArgs)
    ensures
        ({
            let bad_varnish = args.varnish is Some && endpoints::endpoint_parsed(
                (args.varnish->0)@,
                6081,
            ) is Err;
            let bad_fpm_status_url = args.fpm_status is Some && endpoints::target_parsed(
                (args.fpm_status->0)@,
                80,
            ) is Err;
            let bad_nginx_status_url = args.nginx_status is Some && endpoints::target_parsed(
                (args.nginx_status->0)@,
                80,
            ) is Err;
            let bad_redis_cache = args.redis_cache is Some && endpoints::endpoint_parsed(
                (args.redis_cache->0)@,
                6379,
            ) is Err;
            let bad_redis_session = args.redis_session is Some && endpoints::endpoint_parsed(
                (args.redis_session->0)@,
                6379,
            ) is Err;
            let bad_redis_page_cache = args.redis_page_cache is Some && endpoints::endpoint_parsed(
                (args.redis_page_cache->0)@,
                6379,
            ) is Err;
            let bad_opensearch = args.opensearch is Some && endpoints::endpoint_parsed(
                (args.opensearch->0)@,
                9200,
            ) is Err;
            let bad_storefront_url = args.storefront_url is Some && endpoints::target_parsed(
                (args.storefront_url->0)@,
                80,
            ) is Err;
            &&& args.first_error() is Some <==> bad_varnish || bad_fpm_status_url || bad_nginx_status_url
                || bad_redis_cache || bad_redis_session || bad_redis_page_cache
                || bad_opensearch || bad_storefront_url
            &&& bad_varnish ==> args.first_error() == Some(
                "--"@ + "varnish"@ + ": "@ + endpoints::endpoint_parsed(
                    (args.varnish->0)@,
                    6081,
                )->Err_0.described(),
            )
            &&& !bad_varnish && bad_fpm_status_url ==> args.first_error() == Some(
                "--"@ + "fpm-status"@ + ": "@ + endpoints::target_parsed(
                    (args.fpm_status->0)@,
                    80,
                )->Err_0.described(),
            )
            &&& !bad_varnish && !bad_fpm_status_url
                && bad_nginx_status_url ==> args.first_error() == Some(
                "--"@ + "nginx-status"@ + ": "@ + endpoints::target_parsed(
                    (args.nginx_status->0)@,
                    80,
                )->Err_0.described(),
            )
            &&& !bad_varnish && !bad_fpm_status_url && !bad_nginx_status_url
                && bad_redis_cache ==> args.first_error() == Some(
                "--"@ + "redis-cache"@ + ": "@ + endpoints::endpoint_parsed(
                    (args.redis_cache->0)@,
                    6379,
                )->Err_0.described(),
            )
            &&& !bad_varnish && !bad_fpm_status_url && !bad_nginx_status_url
                && !bad_redis_cache && bad_redis_session ==> args.first_error() == Some(
                "--"@ + "redis-session"@ + ": "@ + endpoints::endpoint_parsed(
                    (args.redis_session->0)@,
                    6379,
                )->Err_0.described(),
            )
            &&& !bad_varnish && !bad_fpm_status_url && !bad_nginx_status_url
                && !bad_redis_cache && !bad_redis_session
                && bad_redis_page_cache ==> args.first_error() == Some(
                "--"@ + "redis-page-cache"@ + ": "@ + endpoints::endpoint_parsed(
                    (args.redis_page_cache->0)@,
                    6379,
                )->Err_0.described(),
            )
            &&& !bad_varnish && !bad_fpm_status_url && !bad_nginx_status_url
                && !bad_redis_cache && !bad_redis_session && !bad_redis_page_cache
                && bad_opensearch ==> args.first_error() == Some(
                "--"@ + "opensearch"@ + ": "@ + endpoints::endpoint_parsed(
                    (args.opensearch->0)@,
                    9200,
                )->Err_0.described(),
            )
            &&& !bad_varnish && !bad_fpm_status_url && !bad_nginx_status_url
                && !bad_redis_cache && !bad_redis_session && !bad_redis_page_cache
                && !bad_opensearch && bad_storefront_url ==> args.first_error() == Some(
                "--"@ + "storefront-url"@ + ": "@ + endpoints::target_parsed(
                    (args.storefront_url->0)@,
                    80,
                )->Err_0.described(),
            )
        }),
{
}

} // verus!
