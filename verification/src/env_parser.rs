//! Parser for `app/etc/env.php`, redacting all secrets.

use crate::model::{MagentoMode, SanitizedEnvConfig, SanitizedEnvConfigView, SecretValue};
use crate::patterns::{self, all_groups, first_group};
use crate::text::{
    self, chars_of, contains_char, copy_opt, find, is_blank, next_in, same, starts_with,
    text_between, to_lowercase, trim, CharSet,
};
use vstd::prelude::*;
use vstd::string::*;

verus! {

/// The value of `MAGE_MODE`.
pub const MODE_PATTERN: &'static str = "['\"]MAGE_MODE['\"]\\s*=>\\s*['\"]([a-zA-Z0-9_-]+)['\"]";

/// The encryption key.
pub const CRYPT_PATTERN: &'static str =
    "['\"]crypt['\"]\\s*=>\\s*\\[[^\\]]*['\"]key['\"]\\s*=>\\s*['\"]([^'\"]*)['\"]";

/// A host.
pub const HOST_PATTERN: &'static str = "['\"]host['\"]\\s*=>\\s*['\"]([^'\"]+)['\"]";

/// The database name.
pub const DB_NAME_PATTERN: &'static str = "['\"]dbname['\"]\\s*=>\\s*['\"]([^'\"]+)['\"]";

/// The database user.
pub const DB_USER_PATTERN: &'static str = "['\"]username['\"]\\s*=>\\s*['\"]([^'\"]+)['\"]";

/// The database password, which may be empty.
pub const DB_PASSWORD_PATTERN: &'static str = "['\"]password['\"]\\s*=>\\s*['\"]([^'\"]*)['\"]";

/// A password that is not empty.
pub const PASSWORD_PATTERN: &'static str = "['\"]password['\"]\\s*=>\\s*['\"]([^'\"]+)['\"]";

/// The host, server or socket path of a Redis backend.
pub const BACKEND_HOST_PATTERN: &'static str =
    "['\"](?:host|server|path)['\"]\\s*=>\\s*['\"]([^'\"]+)['\"]";

/// A port.
pub const PORT_PATTERN: &'static str = "['\"]port['\"]\\s*=>\\s*['\"]?([0-9]+)['\"]?";

/// The number of a Redis database.
pub const DATABASE_PATTERN: &'static str = "['\"]database['\"]\\s*=>\\s*['\"]?([0-9]+)['\"]?";

/// The settings of the default cache.
pub const DEFAULT_CACHE_PATTERN: &'static str =
    "['\"]default['\"]\\s*=>\\s*\\[([\\s\\S]*?)(?:['\"]page_cache['\"]|\\]\\s*\\])";

/// The database of the default cache, when its settings do not end.
pub const DEFAULT_CACHE_DATABASE_PATTERN: &'static str =
    "['\"]default['\"]\\s*=>\\s*\\[[\\s\\S]*?['\"]database['\"]\\s*=>\\s*['\"]?([0-9]+)['\"]?";

/// The settings of the page cache.
pub const PAGE_CACHE_PATTERN: &'static str =
    "['\"]page_cache['\"]\\s*=>\\s*\\[([\\s\\S]*?)(?:\\]\\s*,\\s*['\"]|\\]\\s*\\]\\s*\\])";

/// The database of the page cache, when its settings do not end.
pub const PAGE_CACHE_DATABASE_PATTERN: &'static str =
    "['\"]page_cache['\"]\\s*=>\\s*\\[[\\s\\S]*?['\"]database['\"]\\s*=>\\s*['\"]?([0-9]+)['\"]?";

/// Result of parsing `app/etc/env.php`.
#[derive(Debug, Clone)]
pub struct ParsedEnv {
    pub mode: MagentoMode,
    pub config: SanitizedEnvConfig,
    /// Only for the live connection; never serialized or exposed.
    pub raw_db_password: Option<String>,
    /// Redis `requirepass`, for live probes only; never serialized.
    pub raw_redis_password: Option<String>,
}

/// What a [`ParsedEnv`] holds.
#[verifier::ext_equal]
pub struct ParsedEnvView {
    pub mode: MagentoMode,
    pub config: SanitizedEnvConfigView,
    pub raw_db_password: Option<Seq<char>>,
    pub raw_redis_password: Option<Seq<char>>,
}

impl View for ParsedEnv {
    type V = ParsedEnvView;

    open spec fn view(&self) -> ParsedEnvView {
        ParsedEnvView {
            mode: self.mode,
            config: self.config@,
            raw_db_password: text::text_opt(self.raw_db_password),
            raw_redis_password: text::text_opt(self.raw_redis_password),
        }
    }
}

impl ParsedEnvView {
    /// Nothing measured.
    pub open spec fn unset() -> ParsedEnvView {
        ParsedEnvView {
            mode: MagentoMode::unset(),
            config: SanitizedEnvConfigView::unset(),
            raw_db_password: None,
            raw_redis_password: None,
        }
    }
}

impl Default for ParsedEnv {
    fn default() -> (r: ParsedEnv)
        ensures
            r@ == ParsedEnvView::unset(),
    {
        let r = ParsedEnv {
            mode: MagentoMode::default(),
            config: SanitizedEnvConfig::default(),
            raw_db_password: None,
            raw_redis_password: None,
        };
        r
    }
}

/// What was found of one Redis backend.
#[derive(Debug, Clone)]
pub struct BackendParts {
    pub database: Option<String>,
    pub host: Option<String>,
    pub port: Option<String>,
}

/// What a [`BackendParts`] holds.
#[verifier::ext_equal]
pub struct BackendPartsView {
    pub database: Option<Seq<char>>,
    pub host: Option<Seq<char>>,
    pub port: Option<Seq<char>>,
}

impl View for BackendParts {
    type V = BackendPartsView;

    open spec fn view(&self) -> BackendPartsView {
        BackendPartsView {
            database: text::text_opt(self.database),
            host: text::text_opt(self.host),
            port: text::text_opt(self.port),
        }
    }
}

impl BackendPartsView {
    /// Nothing measured.
    pub open spec fn unset() -> BackendPartsView {
        BackendPartsView {
            database: None,
            host: None,
            port: None,
        }
    }
}

impl Default for BackendParts {
    fn default() -> (r: BackendParts)
        ensures
            r@ == BackendPartsView::unset(),
    {
        let r = BackendParts {
            database: None,
            host: None,
            port: None,
        };
        r
    }
}

/// What was found in `app/etc/env.php`.
#[derive(Debug, Clone)]
pub struct EnvParts {
    pub mode: Option<String>,
    pub crypt_key: Option<String>,
    pub db_host: Option<String>,
    pub db_name: Option<String>,
    pub db_user: Option<String>,
    pub db_password: Option<String>,
    pub session: BackendParts,
    pub cache: BackendParts,
    pub page_cache: BackendParts,
    /// The hosts of `http_cache_hosts`.
    pub cache_hosts: Vec<String>,
    /// The ports of `http_cache_hosts`.
    pub cache_ports: Vec<String>,
    /// Every password that is not empty.
    pub passwords: Vec<String>,
}

/// What a [`EnvParts`] holds.
#[verifier::ext_equal]
pub struct EnvPartsView {
    pub mode: Option<Seq<char>>,
    pub crypt_key: Option<Seq<char>>,
    pub db_host: Option<Seq<char>>,
    pub db_name: Option<Seq<char>>,
    pub db_user: Option<Seq<char>>,
    pub db_password: Option<Seq<char>>,
    pub session: BackendPartsView,
    pub cache: BackendPartsView,
    pub page_cache: BackendPartsView,
    pub cache_hosts: Seq<Seq<char>>,
    pub cache_ports: Seq<Seq<char>>,
    pub passwords: Seq<Seq<char>>,
}

impl View for EnvParts {
    type V = EnvPartsView;

    open spec fn view(&self) -> EnvPartsView {
        EnvPartsView {
            mode: text::text_opt(self.mode),
            crypt_key: text::text_opt(self.crypt_key),
            db_host: text::text_opt(self.db_host),
            db_name: text::text_opt(self.db_name),
            db_user: text::text_opt(self.db_user),
            db_password: text::text_opt(self.db_password),
            session: self.session@,
            cache: self.cache@,
            page_cache: self.page_cache@,
            cache_hosts: text::texts(self.cache_hosts@),
            cache_ports: text::texts(self.cache_ports@),
            passwords: text::texts(self.passwords@),
        }
    }
}

impl EnvPartsView {
    /// Nothing measured.
    pub open spec fn unset() -> EnvPartsView {
        EnvPartsView {
            mode: None,
            crypt_key: None,
            db_host: None,
            db_name: None,
            db_user: None,
            db_password: None,
            session: BackendPartsView::unset(),
            cache: BackendPartsView::unset(),
            page_cache: BackendPartsView::unset(),
            cache_hosts: Seq::empty(),
            cache_ports: Seq::empty(),
            passwords: Seq::empty(),
        }
    }
}

impl Default for EnvParts {
    fn default() -> (r: EnvParts)
        ensures
            r@ == EnvPartsView::unset(),
    {
        let r = EnvParts {
            mode: None,
            crypt_key: None,
            db_host: None,
            db_name: None,
            db_user: None,
            db_password: None,
            session: BackendParts::default(),
            cache: BackendParts::default(),
            page_cache: BackendParts::default(),
            cache_hosts: Vec::new(),
            cache_ports: Vec::new(),
            passwords: Vec::new(),
        };
        assert(r@.cache_hosts =~= Seq::empty());
        assert(r@.cache_ports =~= Seq::empty());
        assert(r@.passwords =~= Seq::empty());
        r
    }
}

/// The mode that a word names, whatever the case of its letters.
pub open spec fn mode_named(lower: Seq<char>) -> MagentoMode {
    if lower == "production"@ {
        MagentoMode::Production
    } else if lower == "developer"@ {
        MagentoMode::Developer
    } else if lower == "default"@ {
        MagentoMode::DefaultMode
    } else if lower == "maintenance"@ {
        MagentoMode::Maintenance
    } else {
        MagentoMode::Unknown
    }
}

/// The mode that a word in lower case names.
pub fn read_mode(lower: &str) -> (r: MagentoMode)
    ensures
        r == mode_named(lower@),
{
    if same(lower, "production") {
        MagentoMode::Production
    } else if same(lower, "developer") {
        MagentoMode::Developer
    } else if same(lower, "default") {
        MagentoMode::DefaultMode
    } else if same(lower, "maintenance") {
        MagentoMode::Maintenance
    } else {
        MagentoMode::Unknown
    }
}

/// Whether a secret is set to more than white space.
pub open spec fn presence(secret: Option<Seq<char>>) -> SecretValue {
    match secret {
        Some(s) => if text::trimmed(s).len() > 0 {
            SecretValue::Present
        } else {
            SecretValue::Missing
        },
        None => SecretValue::Missing,
    }
}

fn presence_of(secret: &Option<String>) -> (r: SecretValue)
    ensures
        r == presence(text::text_opt(*secret)),
{
    match secret {
        Some(s) => if is_blank(&trim(s)) {
            SecretValue::Missing
        } else {
            SecretValue::Present
        },
        None => SecretValue::Missing,
    }
}

/// The address of a Redis backend. A socket path, or a host that holds its port, stands
/// alone; a port without a host is one of this machine.
pub open spec fn backend_address(host: Option<Seq<char>>, port: Option<Seq<char>>) -> Option<
    Seq<char>,
> {
    match (host, port) {
        (Some(h), Some(p)) => if text::has_prefix(h, "/"@) || text::has_char(h, ':') {
            Some(h)
        } else {
            Some(h + ":"@ + p)
        },
        (Some(h), None) => Some(h),
        (None, Some(p)) => Some("127.0.0.1:"@ + p),
        (None, None) => None,
    }
}

/// Puts host and port of a Redis backend together.
pub fn redis_address(host: &Option<String>, port: &Option<String>) -> (r: Option<String>)
    ensures
        text::text_opt(r) == backend_address(text::text_opt(*host), text::text_opt(*port)),
{
    match (host, port) {
        (Some(h), Some(p)) => if starts_with(h, "/") || contains_char(h, ':') {
            Some(h.clone())
        } else {
            Some(h.clone().concat(":").concat(p.as_str()))
        },
        (Some(h), None) => Some(h.clone()),
        (None, Some(p)) => Some("127.0.0.1:".to_owned().concat(p.as_str())),
        (None, None) => None,
    }
}

/// The address of one cache host: with the port of the same place in the list, unless it
/// holds a port already.
pub open spec fn cache_host_at(
    hosts: Seq<Seq<char>>,
    ports: Seq<Seq<char>>,
    i: int,
) -> Seq<char> {
    if i < ports.len() && !text::has_char(hosts[i], ':') {
        hosts[i] + ":"@ + ports[i]
    } else {
        hosts[i]
    }
}

/// The addresses of the cache hosts.
pub open spec fn cache_addresses(hosts: Seq<Seq<char>>, ports: Seq<Seq<char>>) -> Seq<Seq<char>> {
    Seq::new(hosts.len(), |i: int| cache_host_at(hosts, ports, i))
}

/// Puts the hosts and the ports of `http_cache_hosts` together.
pub fn pair_cache_hosts(hosts: &Vec<String>, ports: &Vec<String>) -> (r: Vec<String>)
    ensures
        text::texts(r@) == cache_addresses(text::texts(hosts@), text::texts(ports@)),
{
    let ghost h = text::texts(hosts@);
    let ghost p = text::texts(ports@);
    let mut out: Vec<String> = Vec::new();
    let mut i: usize = 0;
    while i < hosts.len()
        invariant
            i <= hosts@.len(),
            h == text::texts(hosts@),
            p == text::texts(ports@),
            out@.len() == i,
            forall|k: int| 0 <= k < i ==> (#[trigger] out@[k])@ == cache_host_at(h, p, k),
        decreases hosts@.len() - i,
    {
        assert(h[i as int] == hosts@[i as int]@);
        let address = if i < ports.len() && !contains_char(&hosts[i], ':') {
            assert(p[i as int] == ports@[i as int]@);
            hosts[i].clone().concat(":").concat(ports[i].as_str())
        } else {
            hosts[i].clone()
        };
        out.push(address);
        i += 1;
    }
    assert(text::texts(out@) =~= cache_addresses(h, p));
    out
}

/// The first password that is not the one of the database: that one is captured separately,
/// and anything else is a backend secret.
pub open spec fn backend_password(passwords: Seq<Seq<char>>, db: Option<Seq<char>>) -> Option<
    Seq<char>,
>
    decreases passwords.len(),
{
    if passwords.len() == 0 {
        None
    } else if db != Some(passwords[0]) {
        Some(passwords[0])
    } else {
        backend_password(passwords.drop_first(), db)
    }
}

fn pick_password(passwords: &Vec<String>, db: &Option<String>) -> (r: Option<String>)
    ensures
        text::text_opt(r) == backend_password(text::texts(passwords@), text::text_opt(*db)),
{
    let ghost all = text::texts(passwords@);
    let mut i: usize = 0;
    assert(all.skip(0) =~= all);
    while i < passwords.len()
        invariant
            i <= passwords@.len(),
            all == text::texts(passwords@),
            backend_password(all, text::text_opt(*db)) == backend_password(
                all.skip(i as int),
                text::text_opt(*db),
            ),
        decreases passwords@.len() - i,
    {
        assert(all.skip(i as int).drop_first() =~= all.skip(i + 1));
        assert(all.skip(i as int)[0] == passwords@[i as int]@);
        let is_db = match db {
            Some(d) => same(d, &passwords[i]),
            None => false,
        };
        if !is_db {
            return Some(passwords[i].clone());
        }
        i += 1;
    }
    None
}

/// The database password, when it is more than white space.
pub open spec fn usable_password(secret: Option<Seq<char>>) -> Option<Seq<char>> {
    if presence(secret) == SecretValue::Present {
        secret
    } else {
        None
    }
}

/// What the parts of `env.php` amount to.
pub open spec fn env_of(parts: EnvPartsView) -> ParsedEnvView {
    ParsedEnvView {
        mode: match parts.mode {
            Some(word) => mode_named(text::lowercase_of(word)),
            None => MagentoMode::Unknown,
        },
        config: SanitizedEnvConfigView {
            db_host: parts.db_host,
            db_name: parts.db_name,
            db_user: parts.db_user,
            db_password_secret: presence(parts.db_password),
            crypt_key_secret: presence(parts.crypt_key),
            redis_session_host: backend_address(parts.session.host, parts.session.port),
            redis_session_db: parts.session.database,
            redis_cache_host: backend_address(parts.cache.host, parts.cache.port),
            redis_cache_db: parts.cache.database,
            redis_page_cache_host: backend_address(parts.page_cache.host, parts.page_cache.port),
            redis_page_cache_db: parts.page_cache.database,
            http_cache_hosts: cache_addresses(parts.cache_hosts, parts.cache_ports),
            opensearch_host: None,
            opensearch_port: None,
        },
        raw_db_password: usable_password(parts.db_password),
        raw_redis_password: backend_password(
            parts.passwords,
            usable_password(parts.db_password),
        ),
    }
}

/// Puts the parts of `env.php` together, keeping secrets out of the config.
pub fn assemble_env(parts: &EnvParts) -> (r: ParsedEnv)
    ensures
        r@ == env_of(parts@),
{
    let mode = match &parts.mode {
        Some(word) => read_mode(&to_lowercase(word)),
        None => MagentoMode::Unknown,
    };
    let db_password_secret = presence_of(&parts.db_password);
    let raw_db_password = match db_password_secret {
        SecretValue::Present => copy_opt(&parts.db_password),
        SecretValue::Missing => None,
    };
    let raw_redis_password = pick_password(&parts.passwords, &raw_db_password);
    ParsedEnv {
        mode,
        config: SanitizedEnvConfig {
            db_host: copy_opt(&parts.db_host),
            db_name: copy_opt(&parts.db_name),
            db_user: copy_opt(&parts.db_user),
            db_password_secret,
            crypt_key_secret: presence_of(&parts.crypt_key),
            redis_session_host: redis_address(&parts.session.host, &parts.session.port),
            redis_session_db: copy_opt(&parts.session.database),
            redis_cache_host: redis_address(&parts.cache.host, &parts.cache.port),
            redis_cache_db: copy_opt(&parts.cache.database),
            redis_page_cache_host: redis_address(&parts.page_cache.host, &parts.page_cache.port),
            redis_page_cache_db: copy_opt(&parts.page_cache.database),
            http_cache_hosts: pair_cache_hosts(&parts.cache_hosts, &parts.cache_ports),
            opensearch_host: None,
            opensearch_port: None,
        },
        raw_db_password,
        raw_redis_password,
    }
}

/// The content from where a key, in single or else in double quotes, first occurs.
pub open spec fn from_key(content: Seq<char>, single: Seq<char>, double: Seq<char>) -> Option<
    Seq<char>,
> {
    match text::find_in(content, single) {
        Some(i) => Some(content.skip(i)),
        None => match text::find_in(content, double) {
            Some(i) => Some(content.skip(i)),
            None => None,
        },
    }
}

pub fn slice_from_key(content: &str, single: &str, double: &str) -> (r: Option<String>)
    ensures
        text::text_opt(r) == from_key(content@, single@, double@),
{
    let chars = chars_of(content);
    let start: usize = match find(content, single) {
        Some(i) => i,
        None => match find(content, double) {
            Some(i) => i,
            None => {
                return None;
            },
        },
    };
    assert(chars@.subrange(start as int, chars@.len() as int) =~= content@.skip(start as int));
    Some(text_between(&chars, start, chars.len()))
}

/// The position of the bracket that closes the `depth` brackets open before `i`.
pub open spec fn closing(s: Seq<char>, i: int, depth: nat) -> Option<int>
    decreases s.len() - i,
{
    if i < 0 || i >= s.len() {
        None
    } else if s[i] == '[' {
        closing(s, i + 1, depth + 1)
    } else if s[i] == ']' {
        if depth <= 1 {
            Some(i)
        } else {
            closing(s, i + 1, (depth - 1) as nat)
        }
    } else {
        closing(s, i + 1, depth)
    }
}

/// What the first bracketed array holds, brackets matched.
pub open spec fn bracketed(s: Seq<char>) -> Option<Seq<char>> {
    let open = text::next_member(s, CharSet::One('['), 0);
    match closing(s, open, 0) {
        Some(end) => Some(s.subrange(open + 1, end)),
        None => None,
    }
}

/// Returns the contents of the first bracketed array, brackets matched.
pub fn matching_bracket_slice(s: &str) -> (r: Option<String>)
    ensures
        text::text_opt(r) == bracketed(s@),
{
    let chars = chars_of(s);
    let n: usize = chars.len();
    let open: usize = next_in(&chars, CharSet::One('['), 0);
    proof {
        text::lemma_next_member(s@, CharSet::One('['), 0);
    }
    let mut depth: usize = 0;
    let mut i: usize = open;
    while i < n
        invariant
            open <= i <= n,
            n == chars@.len(),
            chars@ == s@,
            open == text::next_member(s@, CharSet::One('['), 0),
            open < n ==> s@[open as int] == '[',
            depth <= i - open,
            i > open ==> depth > 0,
            closing(s@, open as int, 0) == closing(s@, i as int, depth as nat),
        decreases n - i,
    {
        let c = chars[i];
        if c == '[' {
            depth += 1;
        } else if c == ']' {
            if depth <= 1 {
                return Some(text_between(&chars, open + 1, i));
            }
            depth -= 1;
        }
        i += 1;
    }
    None
}

/// The groups that took part in a match.
pub open spec fn present_groups(groups: Seq<Option<Seq<char>>>) -> Seq<Seq<char>>
    decreases groups.len(),
{
    if groups.len() == 0 {
        Seq::empty()
    } else {
        match groups.last() {
            Some(t) => present_groups(groups.drop_last()).push(t),
            None => present_groups(groups.drop_last()),
        }
    }
}

fn take_groups(pattern: &str, text: &str) -> (r: Vec<String>)
    ensures
        text::texts(r@) == present_groups(patterns::groups_of(pattern@, text@)),
{
    broadcast use {text::lemma_texts_push, text::lemma_texts_empty};

    let groups = all_groups(pattern, text);
    let ghost all = patterns::group_texts(groups@);
    let mut out: Vec<String> = Vec::new();
    let mut i: usize = 0;
    while i < groups.len()
        invariant
            i <= groups@.len(),
            all == patterns::group_texts(groups@),
            text::texts(out@) == present_groups(all.take(i as int)),
        decreases groups@.len() - i,
    {
        assert(all.take(i + 1).drop_last() =~= all.take(i as int));
        assert(all.take(i + 1).last() == text::text_opt(groups@[i as int]));
        if let Some(t) = &groups[i] {
            out.push(t.clone());
        }
        i += 1;
    }
    assert(all.take(i as int) =~= all);
    out
}

/// What a stretch of settings says of a Redis backend.
pub open spec fn backend_in(settings: Seq<char>) -> BackendPartsView {
    BackendPartsView {
        database: patterns::group_of(DATABASE_PATTERN@, settings),
        host: patterns::group_of(BACKEND_HOST_PATTERN@, settings),
        port: patterns::group_of(PORT_PATTERN@, settings),
    }
}

fn read_backend(settings: &str) -> (r: BackendParts)
    ensures
        r@ == backend_in(settings@),
{
    BackendParts {
        database: first_group(DATABASE_PATTERN, settings),
        host: first_group(BACKEND_HOST_PATTERN, settings),
        port: first_group(PORT_PATTERN, settings),
    }
}

/// What the cache section says of one cache: from the stretch of its own settings, or, where
/// that does not end, its database alone.
pub open spec fn cache_in(
    section: Seq<char>,
    settings_pattern: Seq<char>,
    database_pattern: Seq<char>,
) -> BackendPartsView {
    match patterns::group_of(settings_pattern, section) {
        Some(settings) => backend_in(settings),
        None => BackendPartsView {
            database: patterns::group_of(database_pattern, section),
            host: None,
            port: None,
        },
    }
}

fn read_cache(section: &str, settings_pattern: &str, database_pattern: &str) -> (r: BackendParts)
    ensures
        r@ == cache_in(section@, settings_pattern@, database_pattern@),
{
    match first_group(settings_pattern, section) {
        Some(settings) => read_backend(&settings),
        None => BackendParts {
            database: first_group(database_pattern, section),
            host: None,
            port: None,
        },
    }
}

/// The stretch of `http_cache_hosts`. Each host is its own nested array, so the brackets are
/// matched to find where the list really ends.
pub open spec fn cache_hosts_in(content: Seq<char>) -> Option<Seq<char>> {
    match from_key(content, "'http_cache_hosts'"@, "\"http_cache_hosts\""@) {
        Some(rest) => match bracketed(rest) {
            Some(inner) => Some(inner),
            None => Some(rest),
        },
        None => None,
    }
}

/// What `env.php` holds.
pub open spec fn parts_of(content: Seq<char>) -> EnvPartsView {
    let cache = from_key(content, "'cache'"@, "\"cache\""@);
    EnvPartsView {
        mode: patterns::group_of(MODE_PATTERN@, content),
        crypt_key: patterns::group_of(CRYPT_PATTERN@, content),
        db_host: patterns::group_of(HOST_PATTERN@, content),
        db_name: patterns::group_of(DB_NAME_PATTERN@, content),
        db_user: patterns::group_of(DB_USER_PATTERN@, content),
        db_password: patterns::group_of(DB_PASSWORD_PATTERN@, content),
        session: match from_key(content, "'session'"@, "\"session\""@) {
            Some(section) => backend_in(section),
            None => BackendPartsView::unset(),
        },
        cache: match cache {
            Some(section) => cache_in(
                section,
                DEFAULT_CACHE_PATTERN@,
                DEFAULT_CACHE_DATABASE_PATTERN@,
            ),
            None => BackendPartsView::unset(),
        },
        page_cache: match cache {
            Some(section) => cache_in(section, PAGE_CACHE_PATTERN@, PAGE_CACHE_DATABASE_PATTERN@),
            None => BackendPartsView::unset(),
        },
        cache_hosts: match cache_hosts_in(content) {
            Some(block) => present_groups(patterns::groups_of(HOST_PATTERN@, block)),
            None => Seq::empty(),
        },
        cache_ports: match cache_hosts_in(content) {
            Some(block) => present_groups(patterns::groups_of(PORT_PATTERN@, block)),
            None => Seq::empty(),
        },
        passwords: present_groups(patterns::groups_of(PASSWORD_PATTERN@, content)),
    }
}

fn find_cache_hosts(content: &str) -> (r: Option<String>)
    ensures
        text::text_opt(r) == cache_hosts_in(content@),
{
    match slice_from_key(content, "'http_cache_hosts'", "\"http_cache_hosts\"") {
        Some(rest) => match matching_bracket_slice(&rest) {
            Some(inner) => Some(inner),
            None => Some(rest),
        },
        None => None,
    }
}

/// Finds the parts of `env.php`.
pub fn read_parts(content: &str) -> (r: EnvParts)
    ensures
        r@ == parts_of(content@),
{
    broadcast use text::lemma_texts_empty;

    let session = match slice_from_key(content, "'session'", "\"session\"") {
        Some(section) => read_backend(&section),
        None => BackendParts::default(),
    };
    let (cache, page_cache) = match slice_from_key(content, "'cache'", "\"cache\"") {
        Some(section) => (
            read_cache(&section, DEFAULT_CACHE_PATTERN, DEFAULT_CACHE_DATABASE_PATTERN),
            read_cache(&section, PAGE_CACHE_PATTERN, PAGE_CACHE_DATABASE_PATTERN),
        ),
        None => (BackendParts::default(), BackendParts::default()),
    };
    let (cache_hosts, cache_ports) = match find_cache_hosts(content) {
        Some(block) => (take_groups(HOST_PATTERN, &block), take_groups(PORT_PATTERN, &block)),
        None => (Vec::new(), Vec::new()),
    };
    EnvParts {
        mode: first_group(MODE_PATTERN, content),
        crypt_key: first_group(CRYPT_PATTERN, content),
        db_host: first_group(HOST_PATTERN, content),
        db_name: first_group(DB_NAME_PATTERN, content),
        db_user: first_group(DB_USER_PATTERN, content),
        db_password: first_group(DB_PASSWORD_PATTERN, content),
        session,
        cache,
        page_cache,
        cache_hosts,
        cache_ports,
        passwords: take_groups(PASSWORD_PATTERN, content),
    }
}

/// Parses the content of `app/etc/env.php`.
pub fn parse_env_php(content: &str) -> (r: ParsedEnv)
    ensures
        r@ == env_of(parts_of(content@)),
{
    assemble_env(&read_parts(content))
}

/// The config shows of secrets only whether they are set: neither the text of the database
/// password or the encryption key, nor any other password, bears on it otherwise.
pub proof fn law_secrets_are_redacted(
    parts: EnvPartsView,
    db_password: Option<Seq<char>>,
    crypt_key: Option<Seq<char>>,
    passwords: Seq<Seq<char>>,
)
    requires
        presence(db_password) == presence(parts.db_password),
        presence(crypt_key) == presence(parts.crypt_key),
    ensures
        env_of(EnvPartsView { db_password, crypt_key, passwords, ..parts }).config == env_of(
            parts,
        ).config,
{
}

/// The Redis password is never the one of the database, and is found whenever some other
/// password is there.
pub proof fn law_redis_password_is_another(passwords: Seq<Seq<char>>, db: Option<Seq<char>>)
    ensures
        backend_password(passwords, db) matches Some(p) ==> db != Some(p) && passwords.contains(p),
        backend_password(passwords, db) is None ==> forall|i: int|
            0 <= i < passwords.len() ==> db == Some(#[trigger] passwords[i]),
    decreases passwords.len(),
{
    if passwords.len() > 0 {
        let rest = passwords.drop_first();
        law_redis_password_is_another(rest, db);
        if db != Some(passwords[0]) {
            assert(passwords.contains(passwords[0]));
        } else {
            if let Some(p) = backend_password(rest, db) {
                let k = choose|k: int| 0 <= k < rest.len() && rest[k] == p;
                assert(passwords[k + 1] == p);
            }
            assert forall|i: int| 0 <= i < passwords.len() && backend_password(rest, db)
                is None implies db == Some(#[trigger] passwords[i]) by {
                if i > 0 {
                    assert(rest[i - 1] == passwords[i]);
                }
            }
        }
    }
}

/// A store whose `env.php` lists no cache hosts is not configured for Varnish.
pub proof fn law_no_cache_hosts_without_the_key(content: Seq<char>)
    requires
        !text::contains_text(content, "'http_cache_hosts'"@),
        !text::contains_text(content, "\"http_cache_hosts\""@),
    ensures
        env_of(parts_of(content)).config.http_cache_hosts.len() == 0,
{
}

/// The mode is that of the word, letter case aside; any other word, or none, is unknown.
pub proof fn law_mode(parts: EnvPartsView)
    ensures
        ({
            let mode = env_of(parts).mode;
            let word = text::lowercase_of(parts.mode->0);
            &&& mode == MagentoMode::Production <==> parts.mode is Some && word == "production"@
            &&& mode == MagentoMode::Developer <==> parts.mode is Some && word == "developer"@
            &&& mode == MagentoMode::DefaultMode <==> parts.mode is Some && word == "default"@
            &&& mode == MagentoMode::Maintenance <==> parts.mode is Some && word == "maintenance"@
        }),
{
    reveal_strlit("production");
    reveal_strlit("developer");
    reveal_strlit("default");
    reveal_strlit("maintenance");
    assert("production"@[0] == 'p' && "developer"@[2] == 'v' && "default"@[2] == 'f'
        && "maintenance"@[0] == 'm' && "developer"@[0] == 'd' && "default"@[0] == 'd');
}

/// A secret is present exactly where it is set to something that is not blank, and only then
/// is the database password used.
pub proof fn law_secrets(parts: EnvPartsView)
    ensures
        ({
            let r = env_of(parts);
            &&& r.config.db_password_secret == SecretValue::Present <==> parts.db_password is Some
                && text::trimmed(parts.db_password->0).len() > 0
            &&& r.config.crypt_key_secret == SecretValue::Present <==> parts.crypt_key is Some
                && text::trimmed(parts.crypt_key->0).len() > 0
            &&& r.config.db_password_secret == SecretValue::Present ==> r.raw_db_password
                == parts.db_password
            &&& r.config.db_password_secret != SecretValue::Present ==> r.raw_db_password is None
                && r.config.db_password_secret == SecretValue::Missing
        }),
{
}

/// The address of a backend is its host with the port behind it, unless the host is a socket
/// or has a port of its own; a port alone is one of the local host.
pub proof fn law_backend_address(h: Seq<char>, p: Seq<char>)
    ensures
        backend_address(None, None) is None,
        backend_address(None, Some(p)) == Some("127.0.0.1:"@ + p),
        backend_address(Some(h), None) == Some(h),
        h.len() > 0 && h[0] == '/' || text::has_char(h, ':') ==> backend_address(Some(h), Some(p))
            == Some(h),
        !(h.len() > 0 && h[0] == '/') && !text::has_char(h, ':') ==> backend_address(
            Some(h),
            Some(p),
        ) == Some(h + ":"@ + p),
{
    reveal_strlit("/");
    assert("/"@[0] == '/');
    if h.len() > 0 {
        assert(h.subrange(0, 1)[0] == h[0]);
        if h[0] == '/' {
            assert(h.subrange(0, 1) =~= "/"@);
        }
    }
}

/// What is read of `env.php` goes where it belongs: each backend has the host, port and
/// database of its own section, and each cache host the port at its own place.
pub proof fn law_env_fields(parts: EnvPartsView)
    ensures
        ({
            let c = env_of(parts).config;
            &&& c.db_host == parts.db_host && c.db_name == parts.db_name && c.db_user
                == parts.db_user
            &&& c.redis_session_db == parts.session.database && c.redis_cache_db
                == parts.cache.database && c.redis_page_cache_db == parts.page_cache.database
            &&& c.redis_session_host == backend_address(parts.session.host, parts.session.port)
            &&& c.redis_cache_host == backend_address(parts.cache.host, parts.cache.port)
            &&& c.redis_page_cache_host == backend_address(
                parts.page_cache.host,
                parts.page_cache.port,
            )
            &&& c.http_cache_hosts.len() == parts.cache_hosts.len()
            &&& forall|i: int|
                0 <= i < parts.cache_hosts.len() ==> #[trigger] c.http_cache_hosts[i] == if i
                    < parts.cache_ports.len() && !text::has_char(parts.cache_hosts[i], ':') {
                    parts.cache_hosts[i] + ":"@ + parts.cache_ports[i]
                } else {
                    parts.cache_hosts[i]
                }
        }),
{
}

/// The part of `env.php` from a key on begins with the key, in single quotes where it occurs
/// so, and else in double quotes; without either there is none.
pub proof fn law_from_key(content: Seq<char>, single: Seq<char>, double: Seq<char>)
    ensures
        ({
            let r = from_key(content, single, double);
            &&& r is None <==> !text::contains_text(content, single) && !text::contains_text(
                content,
                double,
            )
            &&& text::contains_text(content, single) ==> text::has_prefix(r->0, single)
            &&& !text::contains_text(content, single) && text::contains_text(content, double)
                ==> text::has_prefix(r->0, double)
        }),
{
    text::lemma_find_from(content, single, 0);
    text::lemma_find_from(content, double, 0);
    if let Some(i) = text::find_in(content, single) {
        assert(content.skip(i).subrange(0, single.len() as int) =~= content.subrange(
            i,
            i + single.len(),
        ));
    }
    if let Some(i) = text::find_in(content, double) {
        assert(content.skip(i).subrange(0, double.len() as int) =~= content.subrange(
            i,
            i + double.len(),
        ));
    }
}

/// What stands in the first brackets of a text is found where it holds no bracket itself.
pub proof fn law_bracketed(before: Seq<char>, inner: Seq<char>, after: Seq<char>)
    requires
        forall|i: int| 0 <= i < before.len() ==> #[trigger] before[i] != '[',
        forall|i: int| 0 <= i < inner.len() ==> #[trigger] inner[i] != '[' && inner[i] != ']',
    ensures
        bracketed(before + seq!['['] + inner + seq![']'] + after) == Some(inner),
{
    let s = before + seq!['['] + inner + seq![']'] + after;
    let open = before.len() as int;
    let end = open + 1 + inner.len();
    assert forall|k: int| 0 <= k < open implies #[trigger] s[k] != '[' by {
        assert(s[k] == before[k]);
    }
    assert(s[open] == '[');
    lemma_first_open(s, open, 0);
    assert forall|k: int| open < k < end implies #[trigger] s[k] != '[' && s[k] != ']' by {
        assert(s[k] == inner[k - open - 1]);
    }
    assert(s[end] == ']');
    lemma_first_close(s, end, open + 1);
    assert(s.subrange(open + 1, end) =~= inner);
}

proof fn lemma_first_open(s: Seq<char>, at: int, i: int)
    requires
        0 <= i <= at < s.len(),
        s[at] == '[',
        forall|k: int| 0 <= k < at ==> #[trigger] s[k] != '[',
    ensures
        text::next_member(s, CharSet::One('['), i) == at,
    decreases at - i,
{
    if i < at {
        assert(s[i] != '[');
        lemma_first_open(s, at, i + 1);
    }
}

proof fn lemma_first_close(s: Seq<char>, at: int, i: int)
    requires
        0 <= i <= at < s.len(),
        s[at] == ']',
        forall|k: int| i <= k < at ==> #[trigger] s[k] != '[' && s[k] != ']',
    ensures
        closing(s, i, 1) == Some(at),
    decreases at - i,
{
    if i < at {
        assert(s[i] != '[' && s[i] != ']');
        lemma_first_close(s, at, i + 1);
    }
}

/// The Redis password is the first in the file that is not that of the database.
pub proof fn law_first_other_password(passwords: Seq<Seq<char>>, db: Option<Seq<char>>, i: int)
    requires
        0 <= i < passwords.len(),
        db != Some(passwords[i]),
        forall|j: int| 0 <= j < i ==> db == Some(#[trigger] passwords[j]),
    ensures
        backend_password(passwords, db) == Some(passwords[i]),
    decreases i,
{
    if i > 0 {
        assert(db == Some(passwords[0]));
        let rest = passwords.drop_first();
        assert(forall|j: int| 0 <= j < rest.len() ==> #[trigger] rest[j] == passwords[j + 1]);
        law_first_other_password(rest, db, i - 1);
    }
}

/// Each section is looked for under its own key: without the key of the sessions nothing is
/// read of them, and without that of the caches nothing of either cache.
pub proof fn law_sections(content: Seq<char>)
    ensures
        ({
            let parts = parts_of(content);
            let session = from_key(content, "'session'"@, "\"session\""@);
            let cache = from_key(content, "'cache'"@, "\"cache\""@);
            &&& session is None ==> parts.session == BackendPartsView::unset()
            &&& session is Some ==> parts.session == backend_in(session->0)
            &&& cache is None ==> parts.cache == BackendPartsView::unset() && parts.page_cache
                == BackendPartsView::unset()
        }),
{
}

} // verus!
