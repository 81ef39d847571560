//! User-supplied service endpoints for clustered and jump-host deployments.
//!
//! On a jump host, or on a cluster where PHP-FPM, Varnish, Nginx, Redis and OpenSearch
//! live on separate nodes, the operator says where to look. [`RemoteTargets`] carries
//! those overrides; every field is optional.

use crate::number::{self, num, parse_u16};
use crate::paths::{self, join_path};
use crate::text::{
    self, before_any, contains_char, has_text, is_blank, same, split_once, starts_with,
    strip_prefix, text_from, to_ascii_lowercase, trim, CharSet,
};
use vstd::prelude::*;
use vstd::string::*;

verus! {

/// Default filename looked up in the Magento root and the working directory.
pub const ENDPOINTS_FILE: &'static str = "mdoctor.toml";

/// Why an endpoint, or a file of endpoints, is unusable.
#[derive(Debug, Clone, PartialEq, Eq)]
pub enum EndpointError {
    Empty,
    InvalidPort(String),
    UnsupportedScheme(String),
    Read { path: String, source: String },
    Parse { path: String, source: String },
}

/// What an [`EndpointError`] says.
pub enum EndpointErrorView {
    Empty,
    InvalidPort(Seq<char>),
    UnsupportedScheme(Seq<char>),
    Read { path: Seq<char>, source: Seq<char> },
    Parse { path: Seq<char>, source: Seq<char> },
}

impl View for EndpointError {
    type V = EndpointErrorView;

    open spec fn view(&self) -> EndpointErrorView {
        match self {
            EndpointError::Empty => EndpointErrorView::Empty,
            EndpointError::InvalidPort(raw) => EndpointErrorView::InvalidPort(raw@),
            EndpointError::UnsupportedScheme(s) => EndpointErrorView::UnsupportedScheme(s@),
            EndpointError::Read { path, source } => EndpointErrorView::Read {
                path: path@,
                source: source@,
            },
            EndpointError::Parse { path, source } => EndpointErrorView::Parse {
                path: path@,
                source: source@,
            },
        }
    }
}

impl EndpointErrorView {
    pub open spec fn described(self) -> Seq<char> {
        match self {
            EndpointErrorView::Empty => "empty endpoint"@,
            EndpointErrorView::InvalidPort(raw) => "invalid port in '"@ + raw + "'"@,
            EndpointErrorView::UnsupportedScheme(s) => "unsupported URL scheme '"@ + s
                + "' (only http is supported; tunnel TLS endpoints over SSH)"@,
            EndpointErrorView::Read { path, source } => "cannot read endpoint config "@ + path
                + ": "@ + source,
            EndpointErrorView::Parse { path, source } => "cannot parse endpoint config "@ + path
                + ": "@ + source,
        }
    }
}

impl EndpointError {
    /// The error in words.
    pub fn describe(&self) -> (r: String)
        ensures
            r@ == self@.described(),
    {
        match self {
            EndpointError::Empty => "empty endpoint".to_owned(),
            EndpointError::InvalidPort(raw) => "invalid port in '".to_owned().concat(
                raw.as_str(),
            ).concat("'"),
            EndpointError::UnsupportedScheme(s) => "unsupported URL scheme '".to_owned().concat(
                s.as_str(),
            ).concat("' (only http is supported; tunnel TLS endpoints over SSH)"),
            EndpointError::Read { path, source } => "cannot read endpoint config ".to_owned().concat(
                path.as_str(),
            ).concat(": ").concat(source.as_str()),
            EndpointError::Parse { path, source } =>
                "cannot parse endpoint config ".to_owned().concat(path.as_str()).concat(": ").concat(
                source.as_str(),
            ),
        }
    }
}

/// A `host:port` service address, or a unix domain socket path.
#[derive(Debug, Clone, PartialEq, Eq)]
pub struct Endpoint {
    pub host: String,
    pub port: u16,
    /// True when `host` is a filesystem path to a unix socket rather than a hostname.
    pub is_unix_socket: bool,
}

/// What a [`Endpoint`] holds.
#[verifier::ext_equal]
pub struct EndpointView {
    pub host: Seq<char>,
    pub port: u16,
    pub is_unix_socket: bool,
}

impl View for Endpoint {
    type V = EndpointView;

    open spec fn view(&self) -> EndpointView {
        EndpointView {
            host: self.host@,
            port: self.port,
            is_unix_socket: self.is_unix_socket,
        }
    }
}

/// What parsing an endpoint gives, as texts.
pub open spec fn endpoint_result(r: Result<Endpoint, EndpointError>) -> Result<
    EndpointView,
    EndpointErrorView,
> {
    match r {
        Ok(e) => Ok(e@),
        Err(e) => Err(e@),
    }
}

/// A TCP endpoint, when the port could be read.
pub open spec fn tcp(raw: Seq<char>, host: Seq<char>, port: Option<u16>) -> Result<
    EndpointView,
    EndpointErrorView,
> {
    match port {
        Some(p) => Ok(EndpointView { host, port: p, is_unix_socket: false }),
        None => Err(EndpointErrorView::InvalidPort(raw)),
    }
}

/// The part of an address that names host and port: no scheme, and nothing from the
/// first `/`, `?` or `#` on.
pub open spec fn authority_of(address: Seq<char>) -> Seq<char> {
    let rest = match text::split_at_first(address, "://"@) {
        Some((_, rest)) => rest,
        None => address,
    };
    text::first_piece(rest, CharSet::Three('/', '?', '#'))
}

/// Host and port of an authority: `[v6]`, `[v6]:port`, `host:port`, or a bare host, which
/// may be an IPv6 literal with several colons.
pub open spec fn endpoint_of_authority(
    raw: Seq<char>,
    authority: Seq<char>,
    default_port: u16,
) -> Result<EndpointView, EndpointErrorView> {
    match text::without_prefix(authority, "["@) {
        Some(rest) => match text::split_at_first(rest, "]"@) {
            None => Err(EndpointErrorView::InvalidPort(raw)),
            Some((host, after)) => match text::without_prefix(after, ":"@) {
                Some(p) => tcp(raw, host, number::parsed_u16(p)),
                None => tcp(raw, host, Some(default_port)),
            },
        },
        None => match text::split_at_first(authority, ":"@) {
            Some((host, p)) => if text::has_char(p, ':') {
                tcp(raw, authority, Some(default_port))
            } else {
                tcp(raw, host, number::parsed_u16(p))
            },
            None => tcp(raw, authority, Some(default_port)),
        },
    }
}

/// How an endpoint is read.
pub open spec fn endpoint_parsed(raw: Seq<char>, default_port: u16) -> Result<
    EndpointView,
    EndpointErrorView,
> {
    let address = text::trimmed(raw);
    if address.len() == 0 {
        Err(EndpointErrorView::Empty)
    } else if text::has_prefix(address, "/"@) {
        Ok(EndpointView { host: address, port: 0, is_unix_socket: true })
    } else {
        let authority = authority_of(address);
        if authority.len() == 0 {
            Err(EndpointErrorView::Empty)
        } else {
            endpoint_of_authority(raw, authority, default_port)
        }
    }
}

/// `host:port`, with an IPv6 host in brackets.
pub open spec fn host_port(host: Seq<char>, port: u16) -> Seq<char> {
    if text::has_char(host, ':') {
        "["@ + host + "]:"@ + number::dec(port as nat)
    } else {
        host + ":"@ + number::dec(port as nat)
    }
}

pub fn host_port_text(host: &str, port: u16) -> (r: String)
    ensures
        r@ == host_port(host@, port),
{
    if contains_char(host, ':') {
        "[".to_owned().concat(host).concat("]:").concat(num(port as u64).as_str())
    } else {
        host.to_owned().concat(":").concat(num(port as u64).as_str())
    }
}

impl EndpointView {
    pub open spec fn shown(self) -> Seq<char> {
        if self.is_unix_socket {
            self.host
        } else {
            host_port(self.host, self.port)
        }
    }
}

fn tcp_endpoint(raw: &str, host: String, port: Option<u16>) -> (r: Result<Endpoint, EndpointError>)
    ensures
        endpoint_result(r) == tcp(raw@, host@, port),
{
    match port {
        Some(port) => Ok(Endpoint { host, port, is_unix_socket: false }),
        None => Err(EndpointError::InvalidPort(raw.to_owned())),
    }
}

impl Endpoint {
    /// Parses `host`, `host:port`, `[::1]:port`, or a `/path/to.sock` unix socket.
    ///
    /// A bare host uses `default_port`. Any URL scheme and trailing path are stripped, so
    /// `redis://cache-1.internal:6380/2` parses as `cache-1.internal:6380`.
    pub fn parse(raw: &str, default_port: u16) -> (r: Result<Endpoint, EndpointError>)
        ensures
            endpoint_result(r) == endpoint_parsed(raw@, default_port),
    {
        let address = trim(raw);
        if is_blank(&address) {
            return Err(EndpointError::Empty);
        }
        if starts_with(&address, "/") {
            return Ok(Endpoint { host: address, port: 0, is_unix_socket: true });
        }
        let rest = match split_once(&address, "://") {
            Some((_, rest)) => rest,
            None => address,
        };
        let authority = before_any(&rest, CharSet::Three('/', '?', '#'));
        if is_blank(&authority) {
            return Err(EndpointError::Empty);
        }
        if let Some(rest) = strip_prefix(&authority, "[") {
            return match split_once(&rest, "]") {
                None => Err(EndpointError::InvalidPort(raw.to_owned())),
                Some((host, after)) => match strip_prefix(&after, ":") {
                    Some(p) => tcp_endpoint(raw, host, parse_u16(&p)),
                    None => tcp_endpoint(raw, host, Some(default_port)),
                },
            };
        }
        match split_once(&authority, ":") {
            Some((host, p)) => if contains_char(&p, ':') {
                tcp_endpoint(raw, authority, Some(default_port))
            } else {
                tcp_endpoint(raw, host, parse_u16(&p))
            },
            None => tcp_endpoint(raw, authority, Some(default_port)),
        }
    }

    /// The endpoint as text.
    pub fn describe(&self) -> (r: String)
        ensures
            r@ == self@.shown(),
    {
        if self.is_unix_socket {
            self.host.clone()
        } else {
            host_port_text(&self.host, self.port)
        }
    }

    /// A copy of the endpoint.
    pub fn copy(&self) -> (r: Endpoint)
        ensures
            r == *self,
    {
        Endpoint {
            host: self.host.clone(),
            port: self.port,
            is_unix_socket: self.is_unix_socket,
        }
    }
}

/// An `http://host:port/path` target for a status page or storefront probe.
#[derive(Debug, Clone, PartialEq, Eq)]
pub struct HttpTarget {
    pub host: String,
    pub port: u16,
    pub path: String,
}

/// What a [`HttpTarget`] holds.
#[verifier::ext_equal]
pub struct HttpTargetView {
    pub host: Seq<char>,
    pub port: u16,
    pub path: Seq<char>,
}

impl View for HttpTarget {
    type V = HttpTargetView;

    open spec fn view(&self) -> HttpTargetView {
        HttpTargetView {
            host: self.host@,
            port: self.port,
            path: self.path@,
        }
    }
}

/// What parsing an HTTP target gives, as texts.
pub open spec fn target_result(r: Result<HttpTarget, EndpointError>) -> Result<
    HttpTargetView,
    EndpointErrorView,
> {
    match r {
        Ok(t) => Ok(t@),
        Err(e) => Err(e@),
    }
}

/// How an HTTP target is read.
pub open spec fn target_parsed(raw: Seq<char>, default_port: u16) -> Result<
    HttpTargetView,
    EndpointErrorView,
> {
    let address = text::trimmed(raw);
    let (scheme, rest) = match text::split_at_first(address, "://"@) {
        Some((scheme, rest)) => (text::ascii_lower(scheme), rest),
        None => ("http"@, address),
    };
    let slash = text::next_member(rest, CharSet::One('/'), 0);
    if address.len() == 0 {
        Err(EndpointErrorView::Empty)
    } else if scheme != "http"@ {
        Err(EndpointErrorView::UnsupportedScheme(scheme))
    } else {
        match endpoint_parsed(rest.take(slash), default_port) {
            Ok(e) => Ok(
                HttpTargetView {
                    host: e.host,
                    port: e.port,
                    path: if slash < rest.len() {
                        rest.skip(slash)
                    } else {
                        "/"@
                    },
                },
            ),
            Err(e) => Err(e),
        }
    }
}

impl HttpTargetView {
    pub open spec fn shown(self) -> Seq<char> {
        "http://"@ + host_port(self.host, self.port) + self.path
    }
}

impl HttpTarget {
    /// Parses an `http://` URL, or a bare `host[:port][/path]` using `default_port`.
    ///
    /// `https://` is rejected: only plain HTTP is spoken, and silently probing the wrong
    /// port would be worse than saying so.
    pub fn parse(raw: &str, default_port: u16) -> (r: Result<HttpTarget, EndpointError>)
        ensures
            target_result(r) == target_parsed(raw@, default_port),
    {
        let address = trim(raw);
        if is_blank(&address) {
            return Err(EndpointError::Empty);
        }
        let (scheme, rest) = match split_once(&address, "://") {
            Some((scheme, rest)) => (to_ascii_lowercase(&scheme), rest),
            None => ("http".to_owned(), address),
        };
        if !same(&scheme, "http") {
            return Err(EndpointError::UnsupportedScheme(scheme));
        }
        let authority = before_any(&rest, CharSet::One('/'));
        let path = text_from(&rest, CharSet::One('/'));
        let endpoint = match Endpoint::parse(&authority, default_port) {
            Ok(e) => e,
            Err(e) => {
                return Err(e);
            },
        };
        proof {
            text::lemma_next_member(rest@, CharSet::One('/'), 0);
        }
        Ok(
            HttpTarget {
                host: endpoint.host,
                port: endpoint.port,
                path: if is_blank(&path) {
                    "/".to_owned()
                } else {
                    path
                },
            },
        )
    }

    /// The target as text.
    pub fn describe(&self) -> (r: String)
        ensures
            r@ == self@.shown(),
    {
        "http://".to_owned().concat(host_port_text(&self.host, self.port).as_str()).concat(
            self.path.as_str(),
        )
    }

    /// A copy of the target.
    pub fn copy(&self) -> (r: HttpTarget)
        ensures
            r == *self,
    {
        HttpTarget { host: self.host.clone(), port: self.port, path: self.path.clone() }
    }
}

/// Where each service actually lives, for cluster and jump-host runs.
#[derive(Debug, Clone)]
pub struct RemoteTargets {
    /// Varnish admin/listen address, probed over HTTP (default port 6081).
    pub varnish: Option<Endpoint>,
    /// PHP-FPM status page, e.g. `http://web-1.internal/status`.
    pub fpm_status_url: Option<HttpTarget>,
    /// Explicit PHP-FPM pool config path, when it is not in a standard location.
    pub fpm_conf: Option<String>,
    /// Nginx `stub_status` page, e.g. `http://web-1.internal/nginx_status`.
    pub nginx_status_url: Option<HttpTarget>,
    /// Default/cache Redis or Valkey instance.
    pub redis_cache: Option<Endpoint>,
    /// Session Redis or Valkey instance.
    pub redis_session: Option<Endpoint>,
    /// Page-cache Redis or Valkey instance.
    pub redis_page_cache: Option<Endpoint>,
    /// OpenSearch or Elasticsearch coordinating node (default port 9200).
    pub opensearch: Option<Endpoint>,
    /// Storefront base URL used for cache-header probes.
    pub storefront_url: Option<HttpTarget>,
    /// Redis `requirepass` value.
    pub redis_password: Option<String>,
    /// OpenSearch basic-auth credentials as `user:password`.
    pub opensearch_auth: Option<String>,
}

/// What [`RemoteTargets`] hold.
#[verifier::ext_equal]
pub struct RemoteTargetsView {
    pub varnish: Option<EndpointView>,
    pub fpm_status_url: Option<HttpTargetView>,
    pub fpm_conf: Option<Seq<char>>,
    pub nginx_status_url: Option<HttpTargetView>,
    pub redis_cache: Option<EndpointView>,
    pub redis_session: Option<EndpointView>,
    pub redis_page_cache: Option<EndpointView>,
    pub opensearch: Option<EndpointView>,
    pub storefront_url: Option<HttpTargetView>,
    pub redis_password: Option<Seq<char>>,
    pub opensearch_auth: Option<Seq<char>>,
}

impl View for RemoteTargets {
    type V = RemoteTargetsView;

    open spec fn view(&self) -> RemoteTargetsView {
        RemoteTargetsView {
            varnish: match self.varnish {
                Some(v) => Some(v@),
                None => None,
            },
            fpm_status_url: match self.fpm_status_url {
                Some(v) => Some(v@),
                None => None,
            },
            fpm_conf: text::text_opt(self.fpm_conf),
            nginx_status_url: match self.nginx_status_url {
                Some(v) => Some(v@),
                None => None,
            },
            redis_cache: match self.redis_cache {
                Some(v) => Some(v@),
                None => None,
            },
            redis_session: match self.redis_session {
                Some(v) => Some(v@),
                None => None,
            },
            redis_page_cache: match self.redis_page_cache {
                Some(v) => Some(v@),
                None => None,
            },
            opensearch: match self.opensearch {
                Some(v) => Some(v@),
                None => None,
            },
            storefront_url: match self.storefront_url {
                Some(v) => Some(v@),
                None => None,
            },
            redis_password: text::text_opt(self.redis_password),
            opensearch_auth: text::text_opt(self.opensearch_auth),
        }
    }
}

/// The value that an overlay leaves: the later one where there is one.
pub open spec fn overlaid<T>(base: Option<T>, other: Option<T>) -> Option<T> {
    if other is Some {
        other
    } else {
        base
    }
}

/// The files that may hold endpoint overrides: one in the Magento root, then one in the
/// working directory.
pub open spec fn override_files(magento_root: Option<&str>) -> Seq<Seq<char>> {
    match magento_root {
        Some(root) => seq![paths::path_below(root@, ENDPOINTS_FILE@), ENDPOINTS_FILE@],
        None => seq![ENDPOINTS_FILE@],
    }
}

/// The first of `candidates` that is among `existing`.
pub open spec fn first_among(candidates: Seq<Seq<char>>, existing: Seq<Seq<char>>) -> Option<
    Seq<char>,
>
    decreases candidates.len(),
{
    if candidates.len() == 0 {
        None
    } else if existing.contains(candidates[0]) {
        Some(candidates[0])
    } else {
        first_among(candidates.drop_first(), existing)
    }
}

impl RemoteTargets {
    /// Whether no override at all was supplied; credentials alone override nothing.
    pub open spec fn names_nothing(self) -> bool {
        &&& self.varnish is None
        &&& self.fpm_status_url is None
        &&& self.fpm_conf is None
        &&& self.nginx_status_url is None
        &&& self.redis_cache is None
        &&& self.redis_session is None
        &&& self.redis_page_cache is None
        &&& self.opensearch is None
        &&& self.storefront_url is None
    }

    /// This with every value that is present in `other` taken from there.
    pub open spec fn overlaid(self, other: RemoteTargets) -> RemoteTargets {
        RemoteTargets {
            varnish: overlaid(self.varnish, other.varnish),
            fpm_status_url: overlaid(self.fpm_status_url, other.fpm_status_url),
            fpm_conf: overlaid(self.fpm_conf, other.fpm_conf),
            nginx_status_url: overlaid(self.nginx_status_url, other.nginx_status_url),
            redis_cache: overlaid(self.redis_cache, other.redis_cache),
            redis_session: overlaid(self.redis_session, other.redis_session),
            redis_page_cache: overlaid(self.redis_page_cache, other.redis_page_cache),
            opensearch: overlaid(self.opensearch, other.opensearch),
            storefront_url: overlaid(self.storefront_url, other.storefront_url),
            redis_password: overlaid(self.redis_password, other.redis_password),
            opensearch_auth: overlaid(self.opensearch_auth, other.opensearch_auth),
        }
    }

    pub open spec fn unset() -> RemoteTargets {
        RemoteTargets {
            varnish: None,
            fpm_status_url: None,
            fpm_conf: None,
            nginx_status_url: None,
            redis_cache: None,
            redis_session: None,
            redis_page_cache: None,
            opensearch: None,
            storefront_url: None,
            redis_password: None,
            opensearch_auth: None,
        }
    }

    /// The files to look for, in order of preference.
    pub fn candidate_files(magento_root: Option<&str>) -> (r: Vec<String>)
        ensures
            text::texts(r@) == override_files(magento_root),
    {
        broadcast use {text::lemma_texts_push, text::lemma_texts_empty};

        let mut files: Vec<String> = Vec::new();
        if let Some(root) = magento_root {
            files.push(join_path(root, ENDPOINTS_FILE));
        }
        files.push(ENDPOINTS_FILE.to_owned());
        assert(text::texts(files@) =~= override_files(magento_root));
        files
    }

    /// Picks the override file to load out of the files that exist: the one in the Magento
    /// root, then the one in the working directory.
    pub fn discover(magento_root: Option<&str>, existing: &Vec<String>) -> (r: Option<String>)
        ensures
            text::text_opt(r) == first_among(override_files(magento_root), text::texts(existing@)),
    {
        let files = RemoteTargets::candidate_files(magento_root);
        let ghost all = override_files(magento_root);
        let mut i: usize = 0;
        assert(all.skip(0) =~= all);
        while i < files.len()
            invariant
                i <= files@.len(),
                all == text::texts(files@),
                all == override_files(magento_root),
                first_among(all, text::texts(existing@)) == first_among(
                    all.skip(i as int),
                    text::texts(existing@),
                ),
            decreases files@.len() - i,
        {
            assert(all.skip(i as int).drop_first() =~= all.skip(i + 1));
            assert(all.skip(i as int)[0] == files@[i as int]@);
            if has_text(existing, &files[i]) {
                return Some(files[i].clone());
            }
            i += 1;
        }
        None
    }

    /// Overlays `other` on top of `self`; every value present in `other` wins.
    ///
    /// Lets command-line flags override a file.
    pub fn overlay(&mut self, other: RemoteTargets)
        ensures
            *final(self) == old(self).overlaid(other),
    {
        if other.varnish.is_some() {
            self.varnish = other.varnish;
        }
        if other.fpm_status_url.is_some() {
            self.fpm_status_url = other.fpm_status_url;
        }
        if other.fpm_conf.is_some() {
            self.fpm_conf = other.fpm_conf;
        }
        if other.nginx_status_url.is_some() {
            self.nginx_status_url = other.nginx_status_url;
        }
        if other.redis_cache.is_some() {
            self.redis_cache = other.redis_cache;
        }
        if other.redis_session.is_some() {
            self.redis_session = other.redis_session;
        }
        if other.redis_page_cache.is_some() {
            self.redis_page_cache = other.redis_page_cache;
        }
        if other.opensearch.is_some() {
            self.opensearch = other.opensearch;
        }
        if other.storefront_url.is_some() {
            self.storefront_url = other.storefront_url;
        }
        if other.redis_password.is_some() {
            self.redis_password = other.redis_password;
        }
        if other.opensearch_auth.is_some() {
            self.opensearch_auth = other.opensearch_auth;
        }
    }

    /// True when no override at all was supplied.
    pub fn is_empty(&self) -> (r: bool)
        ensures
            r == self.names_nothing(),
    {
        self.varnish.is_none() && self.fpm_status_url.is_none() && self.fpm_conf.is_none()
            && self.nginx_status_url.is_none() && self.redis_cache.is_none()
            && self.redis_session.is_none() && self.redis_page_cache.is_none()
            && self.opensearch.is_none() && self.storefront_url.is_none()
    }
}

impl Default for RemoteTargets {
    fn default() -> (r: RemoteTargets)
        ensures
            r == RemoteTargets::unset(),
    {
        RemoteTargets {
            varnish: None,
            fpm_status_url: None,
            fpm_conf: None,
            nginx_status_url: None,
            redis_cache: None,
            redis_session: None,
            redis_page_cache: None,
            opensearch: None,
            storefront_url: None,
            redis_password: None,
            opensearch_auth: None,
        }
    }
}

impl EndpointView {
    /// Whether the text of the endpoint says all of it: a socket path is trimmed and starts
    /// with a slash; a host holds nothing that ends an authority, and nothing that would be
    /// taken for brackets or white space around it.
    pub open spec fn is_plain(self) -> bool {
        if self.is_unix_socket {
            self.port == 0 && text::has_prefix(self.host, "/"@) && text::trimmed(self.host) == self.host
        } else {
            &&& forall|i: int|
                0 <= i < self.host.len() ==> !CharSet::Three('/', '?', '#').contains(
                    #[trigger] self.host[i],
                )
            &&& if text::has_char(self.host, ':') {
                !text::has_char(self.host, ']')
            } else {
                self.host.len() > 0 ==> !text::is_space(self.host[0]) && self.host[0] != '['
            }
        }
    }
}

/// The first piece of a text without any separator is the whole text.
proof fn lemma_one_piece(s: Seq<char>, set: CharSet)
    requires
        forall|i: int| 0 <= i < s.len() ==> !set.contains(#[trigger] s[i]),
    ensures
        text::first_piece(s, set) == s,
{
    text::lemma_next_member(s, set, 0);
    assert(s.take(s.len() as int) =~= s);
}

/// An endpoint that was shown as text is read back as itself, whatever the default port.
pub proof fn law_endpoint_reads_back(e: EndpointView, default_port: u16)
    requires
        e.is_plain(),
    ensures
        endpoint_parsed(e.shown(), default_port) == Ok::<EndpointView, EndpointErrorView>(e),
{
    reveal_strlit("/");
    reveal_strlit("[");
    reveal_strlit("]");
    reveal_strlit(":");
    reveal_strlit("]:");
    reveal_strlit("://");
    let s = e.shown();
    if !e.is_unix_socket {
        let digits = number::dec(e.port as nat);
        number::law_dec_reads_back(e.port as nat, u16::MAX as nat);
        assert('0' <= digits[digits.len() - 1] <= '9');
        assert(s.last() == digits.last());
        assert forall|i: int| 0 <= i < s.len() implies !CharSet::Three('/', '?', '#').contains(
            #[trigger] s[i],
        ) by {
            let n: int = s.len() - digits.len();
            if i >= n {
                assert(s[i] == digits[i - n]);
            } else if text::has_char(e.host, ':') {
                if 1 <= i < 1 + e.host.len() {
                    assert(s[i] == e.host[i - 1]);
                }
            } else if i < e.host.len() {
                assert(s[i] == e.host[i]);
            }
        }
        if e.host.len() > 0 {
            assert(e.host[0] == e.host.first());
        }
        text::lemma_trimmed_id(s);
        assert(!text::has_prefix(s, "/"@)) by {
            if text::has_prefix(s, "/"@) {
                assert(s.subrange(0, 1)[0] == "/"@[0]);
            }
        }
        text::lemma_find_from(s, "://"@, 0);
        if let Some(j) = text::find_in(s, "://"@) {
            assert(s.subrange(j, j + 3)[1] == "://"@[1]);
        }
        lemma_one_piece(s, CharSet::Three('/', '?', '#'));
        if text::has_char(e.host, ':') {
            assert(s.subrange(0, 1) =~= "["@);
            let rest = s.skip(1);
            assert(rest.subrange(e.host.len() as int, e.host.len() as int + 1) =~= "]"@);
            assert forall|k: int| 0 <= k < e.host.len() implies !text::occurs_at(rest, "]"@, k) by {
                if text::occurs_at(rest, "]"@, k) {
                    assert(rest.subrange(k, k + 1)[0] == "]"@[0]);
                    assert(e.host[k] == ']');
                }
            }
            text::lemma_found_at(rest, "]"@, e.host.len() as int);
            assert(rest.take(e.host.len() as int) =~= e.host);
            let after = rest.skip(e.host.len() as int + 1);
            assert(after.subrange(0, 1) =~= ":"@);
            assert(after.skip(1) =~= digits);
        } else {
            assert(!text::has_prefix(s, "["@)) by {
                if text::has_prefix(s, "["@) {
                    assert(s.subrange(0, 1)[0] == "["@[0]);
                }
            }
            let n = e.host.len() as int;
            assert(s.subrange(n, n + 1) =~= ":"@);
            assert forall|k: int| 0 <= k < n implies !text::occurs_at(s, ":"@, k) by {
                if text::occurs_at(s, ":"@, k) {
                    assert(s.subrange(k, k + 1)[0] == ":"@[0]);
                    assert(e.host[k] == ':');
                }
            }
            text::lemma_found_at(s, ":"@, n);
            assert(s.take(n) =~= e.host);
            assert(s.skip(n + 1) =~= digits);
            assert(!text::has_char(digits, ':'));
        }
    }
}

/// An HTTP target that was shown as text is read back as itself, whatever the default port.
pub proof fn law_target_reads_back(t: HttpTargetView, default_port: u16)
    requires
        (EndpointView { host: t.host, port: t.port, is_unix_socket: false }).is_plain(),
        t.path.len() > 0,
        t.path[0] == '/',
        !text::is_space(t.path.last()),
    ensures
        target_parsed(t.shown(), default_port) == Ok::<HttpTargetView, EndpointErrorView>(t),
{
    reveal_strlit("http://");
    reveal_strlit("http");
    reveal_strlit("://");
    reveal_strlit("/");
    let e = EndpointView { host: t.host, port: t.port, is_unix_socket: false };
    let authority = e.shown();
    law_endpoint_reads_back(e, default_port);
    let s = t.shown();
    let rest = authority + t.path;
    assert(s.last() == t.path.last());
    text::lemma_trimmed_id(s);
    assert(s.subrange(4, 7) =~= "://"@);
    assert forall|k: int| 0 <= k < 4 implies !text::occurs_at(s, "://"@, k) by {
        if text::occurs_at(s, "://"@, k) {
            assert(s.subrange(k, k + 3)[0] == "://"@[0]);
            assert("http://"@[k] == ':');
        }
    }
    text::lemma_found_at(s, "://"@, 4);
    assert(s.take(4) =~= "http"@);
    assert(text::ascii_lower("http"@) =~= "http"@);
    assert(s.skip(7) =~= rest);
    text::lemma_next_member(rest, CharSet::One('/'), 0);
    let n = authority.len() as int;
    assert(rest[n] == '/');
    assert forall|i: int| 0 <= i < n implies rest[i] != '/' by {
        reveal_strlit("[");
        reveal_strlit("]:");
        reveal_strlit(":");
        let digits = number::dec(t.port as nat);
        number::law_dec_reads_back(t.port as nat, u16::MAX as nat);
        let m: int = n - digits.len();
        if i >= m {
            assert(rest[i] == digits[i - m]);
        } else if text::has_char(t.host, ':') {
            if 1 <= i < 1 + t.host.len() {
                assert(rest[i] == t.host[i - 1]);
            }
        } else if i < t.host.len() {
            assert(rest[i] == t.host[i]);
        }
    }
    assert(text::next_member(rest, CharSet::One('/'), 0) == n);
    assert(rest.take(n) =~= authority);
    assert(rest.skip(n) =~= t.path);
}

/// Overrides that hold nothing change nothing, and of three sets of overrides the last one
/// that holds a value wins, in whatever order the overlays are made.
pub proof fn law_overlay(a: RemoteTargets, b: RemoteTargets, c: RemoteTargets)
    ensures
        a.overlaid(RemoteTargets::unset()) == a,
        RemoteTargets::unset().overlaid(a) == a,
        a.overlaid(b).overlaid(c) == a.overlaid(b.overlaid(c)),
        a.overlaid(b).names_nothing() <==> a.names_nothing() && b.names_nothing(),
{
}

/// Whatever both sides set, the overlay keeps the later value; what only one side sets stays.
pub proof fn law_later_value_wins(a: RemoteTargets, b: RemoteTargets)
    ensures
        ({
            let r = a.overlaid(b);
            &&& r.varnish == if b.varnish is Some {
                b.varnish
            } else {
                a.varnish
            }
            &&& r.fpm_status_url == if b.fpm_status_url is Some {
                b.fpm_status_url
            } else {
                a.fpm_status_url
            }
            &&& r.fpm_conf == if b.fpm_conf is Some {
                b.fpm_conf
            } else {
                a.fpm_conf
            }
            &&& r.nginx_status_url == if b.nginx_status_url is Some {
                b.nginx_status_url
            } else {
                a.nginx_status_url
            }
            &&& r.redis_cache == if b.redis_cache is Some {
                b.redis_cache
            } else {
                a.redis_cache
            }
            &&& r.redis_session == if b.redis_session is Some {
                b.redis_session
            } else {
                a.redis_session
            }
            &&& r.redis_page_cache == if b.redis_page_cache is Some {
                b.redis_page_cache
            } else {
                a.redis_page_cache
            }
            &&& r.opensearch == if b.opensearch is Some {
                b.opensearch
            } else {
                a.opensearch
            }
            &&& r.storefront_url == if b.storefront_url is Some {
                b.storefront_url
            } else {
                a.storefront_url
            }
            &&& r.redis_password == if b.redis_password is Some {
                b.redis_password
            } else {
                a.redis_password
            }
            &&& r.opensearch_auth == if b.opensearch_auth is Some {
                b.opensearch_auth
            } else {
                a.opensearch_auth
            }
        }),
{
}

/// The override file is the one in the Magento root where it exists, else the one in the
/// working directory, and no other is looked for.
pub proof fn law_override_file(root: &str, existing: Seq<Seq<char>>)
    ensures
        ({
            let below = paths::path_below(root@, "mdoctor.toml"@);
            let here = "mdoctor.toml"@;
            let found = first_among(override_files(Some(root)), existing);
            &&& existing.contains(below) ==> found == Some(below)
            &&& !existing.contains(below) && existing.contains(here) ==> found == Some(here)
            &&& !existing.contains(below) && !existing.contains(here) ==> found is None
            &&& first_among(override_files(None), existing) == if existing.contains(here) {
                Some(here)
            } else {
                None
            }
        }),
{
    let files = override_files(Some(root));
    reveal_with_fuel(first_among, 3);
    assert(files.drop_first()[0] == "mdoctor.toml"@);
    assert(override_files(None)[0] == "mdoctor.toml"@);
}

/// A target names a host, and a host alone is asked at the default port for the root.
pub proof fn law_default_port(host: Seq<char>, default_port: u16)
    requires
        host.len() > 0,
        forall|i: int|
            0 <= i < host.len() ==> #[trigger] host[i] != '/' && host[i] != '?' && host[i] != '#'
                && host[i] != ':' && host[i] != '[' && !text::is_space(host[i]),
    ensures
        endpoint_parsed(host, default_port) == Ok::<EndpointView, EndpointErrorView>(
            EndpointView { host, port: default_port, is_unix_socket: false },
        ),
{
    reveal_strlit("/");
    reveal_strlit("://");
    reveal_strlit("[");
    reveal_strlit(":");
    text::lemma_trimmed_id(host);
    lemma_one_piece(host, CharSet::Three('/', '?', '#'));
    assert forall|i: int| 0 <= i implies !text::occurs_at(host, "://"@, i) by {
        if text::occurs_at(host, "://"@, i) {
            assert(host.subrange(i, i + 3)[0] == host[i]);
        }
    }
    assert forall|i: int| 0 <= i implies !text::occurs_at(host, ":"@, i) by {
        if text::occurs_at(host, ":"@, i) {
            assert(host.subrange(i, i + 1)[0] == host[i]);
        }
    }
    text::lemma_find_from(host, "://"@, 0);
    text::lemma_find_from(host, ":"@, 0);
    assert(host.subrange(0, 1)[0] == host[0]);
    assert("/"@[0] == '/' && "["@[0] == '[');
}

/// Blank text names no endpoint, and a text that begins with a slash names a socket.
pub proof fn law_empty_and_socket(raw: Seq<char>, default_port: u16)
    ensures
        text::trimmed(raw).len() == 0 ==> endpoint_parsed(raw, default_port) == Err::<
            EndpointView,
            EndpointErrorView,
        >(EndpointErrorView::Empty),
        text::trimmed(raw).len() > 0 && text::trimmed(raw)[0] == '/' ==> endpoint_parsed(
            raw,
            default_port,
        ) == Ok::<EndpointView, EndpointErrorView>(
            EndpointView { host: text::trimmed(raw), port: 0, is_unix_socket: true },
        ),
{
    reveal_strlit("/");
    let address = text::trimmed(raw);
    if address.len() > 0 && address[0] == '/' {
        assert(address.subrange(0, 1) =~= "/"@);
    }
}

/// Only plain HTTP is spoken: a target of any other scheme is refused with that scheme.
pub proof fn law_other_schemes_are_refused(raw: Seq<char>, default_port: u16)
    requires
        text::split_at_first(text::trimmed(raw), "://"@) is Some,
        text::ascii_lower((text::split_at_first(text::trimmed(raw), "://"@)->0).0) != "http"@,
    ensures
        target_parsed(raw, default_port) == Err::<HttpTargetView, EndpointErrorView>(
            EndpointErrorView::UnsupportedScheme(
                text::ascii_lower((text::split_at_first(text::trimmed(raw), "://"@)->0).0),
            ),
        ),
{
    reveal_strlit("://");
    let address = text::trimmed(raw);
    if address.len() == 0 {
        text::lemma_find_from(address, "://"@, 0);
    }
}

} // verus!
