//! Checks of the Redis settings in `app/etc/env.php`.

use crate::model::{SanitizedEnvConfig, SanitizedEnvConfigView};
use crate::text::{self, same};
use vstd::prelude::*;
use vstd::string::*;

verus! {

/// A cache that keeps its keys where the sessions are.
#[derive(Debug, Clone)]
pub enum RedisIssue {
    /// Sessions and the default cache.
    SessionSharesCache { database: String },
    /// Sessions and the page cache.
    SessionSharesPageCache { database: String },
}

/// What a [`RedisIssue`] says.
pub enum RedisIssueView {
    SessionSharesCache { database: Seq<char> },
    SessionSharesPageCache { database: Seq<char> },
}

impl View for RedisIssue {
    type V = RedisIssueView;

    open spec fn view(&self) -> RedisIssueView {
        match self {
            RedisIssue::SessionSharesCache { database } => RedisIssueView::SessionSharesCache {
                database: database@,
            },
            RedisIssue::SessionSharesPageCache { database } =>
                RedisIssueView::SessionSharesPageCache { database: database@ },
        }
    }
}

impl RedisIssueView {
    pub open spec fn described(self) -> Seq<char> {
        match self {
            RedisIssueView::SessionSharesCache { database } => "Sessions share Redis database "@
                + database + " with the default cache."@,
            RedisIssueView::SessionSharesPageCache { database } =>
                "Sessions share Redis database "@ + database + " with the page cache."@,
        }
    }
}

impl RedisIssue {
    /// The issue in words.
    pub fn describe(&self) -> (r: String)
        ensures
            r@ == self@.described(),
    {
        match self {
            RedisIssue::SessionSharesCache { database } =>
                "Sessions share Redis database ".to_owned().concat(database.as_str()).concat(
                " with the default cache.",
            ),
            RedisIssue::SessionSharesPageCache { database } =>
                "Sessions share Redis database ".to_owned().concat(database.as_str()).concat(
                " with the page cache.",
            ),
        }
    }
}

/// Whether two backends are one database of one server. Equal database numbers on different
/// hosts, ports or sockets are no collision.
pub open spec fn collides(
    host: Option<Seq<char>>,
    db: Option<Seq<char>>,
    other_host: Option<Seq<char>>,
    other_db: Option<Seq<char>>,
) -> bool {
    db is Some && db == other_db && host == other_host
}

fn same_opt(a: &Option<String>, b: &Option<String>) -> (r: bool)
    ensures
        r == (text::text_opt(*a) == text::text_opt(*b)),
{
    match (a, b) {
        (Some(x), Some(y)) => same(x, y),
        (None, None) => true,
        _ => false,
    }
}

/// The collisions of the session store with the caches.
pub open spec fn redis_issues(env: SanitizedEnvConfigView) -> Seq<RedisIssueView> {
    (if collides(
        env.redis_session_host,
        env.redis_session_db,
        env.redis_cache_host,
        env.redis_cache_db,
    ) {
        seq![RedisIssueView::SessionSharesCache { database: env.redis_session_db->0 }]
    } else {
        Seq::empty()
    }) + (if collides(
        env.redis_session_host,
        env.redis_session_db,
        env.redis_page_cache_host,
        env.redis_page_cache_db,
    ) {
        seq![RedisIssueView::SessionSharesPageCache { database: env.redis_session_db->0 }]
    } else {
        Seq::empty()
    })
}

/// Finds sessions that share their Redis database with a cache, so that a cache flush also
/// clears sessions.
pub fn check_redis_config(env: &SanitizedEnvConfig) -> (r: Vec<RedisIssue>)
    ensures
        r@.map_values(|i: RedisIssue| i@) == redis_issues(env@),
{
    let mut issues: Vec<RedisIssue> = Vec::new();
    if let Some(db) = &env.redis_session_db {
        if same_opt(&env.redis_session_db, &env.redis_cache_db) && same_opt(
            &env.redis_session_host,
            &env.redis_cache_host,
        ) {
            issues.push(RedisIssue::SessionSharesCache { database: db.clone() });
        }
        if same_opt(&env.redis_session_db, &env.redis_page_cache_db) && same_opt(
            &env.redis_session_host,
            &env.redis_page_cache_host,
        ) {
            issues.push(RedisIssue::SessionSharesPageCache { database: db.clone() });
        }
    }
    assert(issues@.map_values(|i: RedisIssue| i@) =~= redis_issues(env@));
    issues
}

/// Equal database numbers on different servers are no issue, whatever the numbers are.
pub proof fn law_other_servers_do_not_collide(env: SanitizedEnvConfigView)
    requires
        env.redis_session_host != env.redis_cache_host,
        env.redis_session_host != env.redis_page_cache_host,
    ensures
        redis_issues(env).len() == 0,
{
}

/// Sessions collide with a cache exactly where both name one database of one server, and
/// each of the two caches is told apart.
pub proof fn law_collisions(env: SanitizedEnvConfigView)
    ensures
        ({
            let issues = redis_issues(env);
            let cache = env.redis_session_db is Some && env.redis_session_db == env.redis_cache_db
                && env.redis_session_host == env.redis_cache_host;
            let page = env.redis_session_db is Some && env.redis_session_db
                == env.redis_page_cache_db && env.redis_session_host == env.redis_page_cache_host;
            let db = env.redis_session_db->0;
            &&& cache && page ==> issues == seq![
                RedisIssueView::SessionSharesCache { database: db },
                RedisIssueView::SessionSharesPageCache { database: db },
            ]
            &&& cache && !page ==> issues == seq![
                RedisIssueView::SessionSharesCache { database: db },
            ]
            &&& !cache && page ==> issues == seq![
                RedisIssueView::SessionSharesPageCache { database: db },
            ]
            &&& !cache && !page ==> issues.len() == 0
        }),
{
}

} // verus!
