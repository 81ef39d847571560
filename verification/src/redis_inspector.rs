//! Live Redis and Valkey internals: the commands to send, the replies that come back, and
//! what they say of the instance.

use crate::bytes::{self, lossy_text};
use crate::endpoints::{Endpoint, EndpointView};
use crate::fields::{self, FieldMap};
use crate::http_probe::{self, append_slice, ReadEvent};
use crate::model::{ProbeOutcome, ProbeOutcomeView, RedisStatus, RedisStatusView};
use crate::number::{self, parse_i64, wide_num};
use crate::ratio::{self, Ratio};
use crate::text::{
    self, chars_of, contains, count, is_blank, lines, split, split_once, starts_with, strip_prefix,
    text_between, trim, trim_start_matches, CharSet,
};
use vstd::prelude::*;
use vstd::string::*;
use vstd::utf8::*;

verus! {

/// Default Redis/Valkey port.
pub const DEFAULT_REDIS_PORT: u16 = 6379;

/// Ceiling on a reply, which is a few KB in practice.
pub const MAX_REPLY_BYTES: usize = 262_144;

pub const UNIX_SOCKET_REASON: &'static str = "unix socket endpoints are not supported over TCP";

/// Redis echoes no secret in its error, but this is explicit rather than a paste of it.
pub const AUTH_REJECTED: &'static str =
    "AUTH rejected: check the password supplied for this instance";

pub const PASSWORD_REQUIRED: &'static str = "instance requires a password (pass --redis-password)";

/// One command as a RESP array: the number of arguments, then each after its length in
/// bytes.
pub open spec fn resp_command(args: Seq<Seq<char>>) -> Seq<char> {
    "*"@ + number::dec(args.len()) + "\r\n"@ + resp_arguments(args)
}

pub open spec fn resp_arguments(args: Seq<Seq<char>>) -> Seq<char>
    decreases args.len(),
{
    if args.len() == 0 {
        Seq::empty()
    } else {
        resp_arguments(args.drop_last()) + "$"@ + number::dec(encode_utf8(args.last()).len()) + "\r\n"@
            + args.last() + "\r\n"@
    }
}

/// The text of one command.
pub fn command_text(args: &Vec<String>) -> (r: String)
    ensures
        r@ == resp_command(text::texts(args@)),
{
    let ghost all = text::texts(args@);
    let mut text = "*".to_owned().concat(wide_num(args.len() as u128).as_str()).concat("\r\n");
    let ghost opening = text@;
    let mut i: usize = 0;
    assert(opening + Seq::empty() =~= opening);
    while i < args.len()
        invariant
            i <= args@.len(),
            all == text::texts(args@),
            text@ == opening + resp_arguments(all.take(i as int)),
        decreases args@.len() - i,
    {
        let arg = args[i].as_str();
        text = text.concat("$").concat(wide_num(arg.as_bytes().len() as u128).as_str()).concat(
            "\r\n",
        ).concat(arg).concat("\r\n");
        proof {
            assert(all.take(i + 1).drop_last() =~= all.take(i as int));
            assert(all.take(i + 1).last() == arg@);
            assert(text@ =~= opening + resp_arguments(all.take(i + 1)));
        }
        i += 1;
    }
    assert(all.take(i as int) =~= all);
    text
}

/// Whether a reply, given with its first byte, is complete: a line, a bulk string of the
/// length that it announces, or an array with two lines for each of its elements, as every
/// element of a `CONFIG GET` reply has.
pub open spec fn reply_text_is_complete(first: u8, text: Seq<char>) -> bool {
    if first == 43 || first == 45 || first == 58 {
        text::contains_text(text, "\r\n"@)
    } else if first == 36 || first == 42 {
        match text::split_at_first(text, "\r\n"@) {
            None => false,
            Some((header, rest)) => match announced(header) {
                None => false,
                Some(n) => if first == 36 {
                    n == -1 || (n >= 0 && encode_utf8(rest).len() >= n + 2)
                } else {
                    n <= 0 || text::occurrences(rest, "\r\n"@) >= n * 2
                },
            },
        }
    } else {
        false
    }
}

/// The number behind the marker of a reply.
pub open spec fn announced(header: Seq<char>) -> Option<int> {
    if header.len() == 0 {
        None
    } else {
        number::parsed_i64(header.skip(1))
    }
}

fn read_announced(header: &str) -> (r: Option<i64>)
    ensures
        r matches Some(v) ==> announced(header@) == Some(v as int),
        r is None ==> announced(header@) is None,
{
    let chars = chars_of(header);
    if chars.len() == 0 {
        return None;
    }
    assert(chars@.subrange(1, chars@.len() as int) =~= header@.skip(1));
    parse_i64(&text_between(&chars, 1, chars.len()))
}

/// Whether the text of a reply that starts with a given byte is complete.
pub fn is_complete_reply(first: u8, text: &str) -> (r: bool)
    ensures
        r == reply_text_is_complete(first, text@),
{
    if first == 43 || first == 45 || first == 58 {
        return contains(text, "\r\n");
    }
    if first != 36 && first != 42 {
        return false;
    }
    proof {
        reveal_strlit("\r\n");
    }
    match split_once(text, "\r\n") {
        None => false,
        Some((header, rest)) => match read_announced(&header) {
            None => false,
            Some(n) => if first == 36 {
                let bytes: usize = rest.as_str().as_bytes().len();
                n == -1 || (n >= 0 && bytes as i128 >= (n as i128) + 2)
            } else {
                let pairs: usize = count(&rest, "\r\n");
                n <= 0 || pairs as i128 >= (n as i128) * 2
            },
        },
    }
}

/// Whether the bytes of a reply are complete.
pub open spec fn reply_is_complete(buf: Seq<u8>) -> bool {
    buf.len() > 0 && reply_text_is_complete(buf[0], bytes::text_in(buf))
}

/// True once a buffered RESP reply is complete, so that reading stops promptly.
pub fn resp_reply_is_complete(buf: &[u8]) -> (r: bool)
    ensures
        r == reply_is_complete(buf@),
{
    if buf.len() == 0 {
        return false;
    }
    is_complete_reply(buf[0], &lossy_text(buf))
}

/// What to do after an attempt to read a reply.
#[derive(Debug, Clone)]
pub enum ReplyStep {
    /// Read on.
    More,
    /// The reply is there.
    Reply(String),
    Fail(String),
}

/// What a [`ReplyStep`] says.
pub enum ReplyStepView {
    More,
    Reply(Seq<char>),
    Fail(Seq<char>),
}

impl View for ReplyStep {
    type V = ReplyStepView;

    open spec fn view(&self) -> ReplyStepView {
        match self {
            ReplyStep::More => ReplyStepView::More,
            ReplyStep::Reply(text) => ReplyStepView::Reply(text@),
            ReplyStep::Fail(reason) => ReplyStepView::Fail(reason@),
        }
    }
}

/// The reply that the bytes read make.
pub open spec fn reply_of(buf: Seq<u8>) -> ReplyStepView {
    if buf.len() == 0 {
        ReplyStepView::Fail("no reply from server"@)
    } else {
        ReplyStepView::Reply(bytes::text_in(buf))
    }
}

/// What to do after an attempt, with the bytes read by then.
pub open spec fn reply_step_after(buf: Seq<u8>, event: ReadEvent) -> ReplyStepView {
    match event {
        ReadEvent::Closed => reply_of(buf),
        ReadEvent::Received(_) => if buf.len() > MAX_REPLY_BYTES || reply_is_complete(buf) {
            reply_of(buf)
        } else {
            ReplyStepView::More
        },
        ReadEvent::Failed(reason) => ReplyStepView::Fail("read failed: "@ + reason@),
        ReadEvent::TimedOut => if reply_is_complete(buf) {
            reply_of(buf)
        } else {
            ReplyStepView::Fail("timed out reading reply"@)
        },
    }
}

fn whole_reply(buf: &[u8]) -> (r: ReplyStep)
    ensures
        r@ == reply_of(buf@),
{
    if buf.len() == 0 {
        ReplyStep::Fail("no reply from server".to_owned())
    } else {
        ReplyStep::Reply(lossy_text(buf))
    }
}

/// Decides how a command goes on after an attempt to read its reply.
pub fn after_reply_read(buf: &mut Vec<u8>, event: &ReadEvent) -> (r: ReplyStep)
    ensures
        final(buf)@ == http_probe::bytes_after(old(buf)@, *event),
        r@ == reply_step_after(final(buf)@, *event),
{
    match event {
        ReadEvent::Closed => whole_reply(buf.as_slice()),
        ReadEvent::Received(chunk) => {
            append_slice(buf, chunk.as_slice());
            if buf.len() > MAX_REPLY_BYTES || resp_reply_is_complete(buf.as_slice()) {
                whole_reply(buf.as_slice())
            } else {
                ReplyStep::More
            }
        },
        ReadEvent::Failed(reason) => ReplyStep::Fail(
            "read failed: ".to_owned().concat(reason.as_str()),
        ),
        ReadEvent::TimedOut => if resp_reply_is_complete(buf.as_slice()) {
            whole_reply(buf.as_slice())
        } else {
            ReplyStep::Fail("timed out reading reply".to_owned())
        },
    }
}

/// A reply without the header of a bulk string.
pub open spec fn without_bulk_header(reply: Seq<char>) -> Seq<char> {
    match text::without_prefix(reply, "$"@) {
        Some(rest) => match text::split_at_first(rest, "\r\n"@) {
            Some((_, body)) => body,
            None => reply,
        },
        None => reply,
    }
}

/// Strips the `$<len>` header from an INFO reply.
pub fn strip_bulk_header(reply: &str) -> (r: String)
    ensures
        r@ == without_bulk_header(reply@),
{
    if let Some(rest) = strip_prefix(reply, "$") {
        if let Some((_, body)) = split_once(&rest, "\r\n") {
            return body;
        }
    }
    reply.to_owned()
}

/// The payload lines of an array reply: those that are neither empty nor a length.
pub open spec fn payload_lines(lines: Seq<Seq<char>>) -> Seq<Seq<char>>
    decreases lines.len(),
{
    if lines.len() == 0 {
        Seq::empty()
    } else if lines.last().len() == 0 || text::has_prefix(lines.last(), "$"@) {
        payload_lines(lines.drop_last())
    } else {
        payload_lines(lines.drop_last()).push(lines.last())
    }
}

/// The first `n` pairs of alternating names and values.
pub open spec fn pairs_map(list: Seq<Seq<char>>, n: nat) -> Map<Seq<char>, Seq<char>>
    decreases n,
{
    if n == 0 {
        Map::empty()
    } else {
        pairs_map(list, (n - 1) as nat).insert(list[2 * n - 2], list[2 * n - 1])
    }
}

/// The settings in a reply to `CONFIG GET`: the payload lines after the header, in pairs.
pub open spec fn config_of(reply: Seq<char>) -> Map<Seq<char>, Seq<char>> {
    let payload = payload_lines(text::pieces_of(reply, "\r\n"@).skip(1));
    pairs_map(payload, payload.len() / 2)
}

fn take_payload(lines: &Vec<String>) -> (r: Vec<String>)
    requires
        lines@.len() > 0,
    ensures
        text::texts(r@) == payload_lines(text::texts(lines@).skip(1)),
{
    broadcast use {text::lemma_texts_push, text::lemma_texts_empty};

    let ghost all = text::texts(lines@).skip(1);
    let mut out: Vec<String> = Vec::new();
    let mut i: usize = 1;
    while i < lines.len()
        invariant
            1 <= i <= lines@.len(),
            all == text::texts(lines@).skip(1),
            text::texts(out@) == payload_lines(all.take(i - 1)),
        decreases lines@.len() - i,
    {
        assert(all.take(i as int).drop_last() =~= all.take(i - 1));
        assert(all.take(i as int).last() == lines@[i as int]@);
        if !is_blank(&lines[i]) && !starts_with(&lines[i], "$") {
            out.push(lines[i].clone());
        }
        i += 1;
    }
    assert(all.take(i - 1) =~= all);
    out
}

/// Parses a RESP array reply from `CONFIG GET` into names and values.
pub fn parse_config_get(reply: &str) -> (r: FieldMap)
    ensures
        r@ == config_of(reply@),
{
    proof {
        reveal_strlit("\r\n");
        text::lemma_pieces_nonempty(reply@, "\r\n"@, 0);
    }
    let lines = split(reply, "\r\n");
    assert(text::texts(lines@).len() == lines@.len());
    let payload = take_payload(&lines);
    let ghost list = text::texts(payload@);
    let mut map = FieldMap::new();
    let total: usize = payload.len();
    let n: usize = total / 2;
    let mut i: usize = 0;
    while i < n
        invariant
            i <= n,
            n == total / 2,
            total == payload@.len(),
            list == text::texts(payload@),
            map@ == pairs_map(list, i as nat),
        decreases n - i,
    {
        let key = payload[2 * i].clone();
        let value = payload[2 * i + 1].clone();
        assert(list[2 * (i + 1) - 2] == key@);
        assert(list[2 * (i + 1) - 1] == value@);
        map.insert(key, value);
        i += 1;
    }
    map
}

/// The map with one line of INFO output added: comments, empty lines and lines without a
/// colon add nothing.
pub open spec fn with_info_line(
    m: Map<Seq<char>, Seq<char>>,
    line: Seq<char>,
) -> Map<Seq<char>, Seq<char>> {
    let text = text::trimmed(line);
    if text::has_prefix(text, "#"@) || text.len() == 0 {
        m
    } else {
        match text::split_at_first(text, ":"@) {
            Some((k, v)) => m.insert(text::trimmed(k), text::trimmed(v)),
            None => m,
        }
    }
}

pub open spec fn info_map(lines: Seq<Seq<char>>) -> Map<Seq<char>, Seq<char>>
    decreases lines.len(),
{
    if lines.len() == 0 {
        Map::empty()
    } else {
        with_info_line(info_map(lines.drop_last()), lines.last())
    }
}

fn read_info(info: &str) -> (r: FieldMap)
    ensures
        r@ == info_map(text::lines_of(info@)),
{
    let all = lines(info);
    let ghost views = text::texts(all@);
    let mut map = FieldMap::new();
    let mut i: usize = 0;
    while i < all.len()
        invariant
            i <= all@.len(),
            views == text::texts(all@),
            map@ == info_map(views.take(i as int)),
        decreases all@.len() - i,
    {
        assert(views.take(i + 1).drop_last() =~= views.take(i as int));
        assert(views.take(i + 1).last() == all@[i as int]@);
        let text = trim(&all[i]);
        if !starts_with(&text, "#") && !is_blank(&text) {
            if let Some((k, v)) = split_once(&text, ":") {
                map.insert(trim(&k), trim(&v));
            }
        }
        i += 1;
    }
    assert(views.take(i as int) =~= views);
    map
}

/// Hits against all lookups, when there were any.
pub open spec fn hit_ratio_of(hits: Option<u64>, misses: Option<u64>) -> Option<(nat, nat)> {
    match (hits, misses) {
        (Some(h), Some(m)) => if 0 < h + m <= u64::MAX {
            Some((h as nat, (h + m) as nat))
        } else {
            None
        },
        _ => None,
    }
}

/// What INFO fields say of an instance. Whether a server answered is not among it.
pub open spec fn info_status(m: Map<Seq<char>, Seq<char>>) -> RedisStatusView {
    RedisStatusView {
        is_configured: false,
        is_reachable: false,
        endpoint: None,
        probe: ProbeOutcomeView::NotAttempted,
        version: fields::lookup(m, "redis_version"@),
        used_memory_bytes: fields::number_at(m, "used_memory"@),
        used_memory_peak_bytes: fields::number_at(m, "used_memory_peak"@),
        maxmemory_bytes: fields::number_at(m, "maxmemory"@),
        maxmemory_policy: fields::lookup(m, "maxmemory_policy"@),
        mem_fragmentation_ratio: match fields::lookup(m, "mem_fragmentation_ratio"@) {
            Some(v) => ratio::decimal_of(v),
            None => None,
        },
        evicted_keys: fields::number_at(m, "evicted_keys"@),
        connected_clients: fields::number_at(m, "connected_clients"@),
        blocked_clients: fields::number_at(m, "blocked_clients"@),
        keyspace_hits: fields::number_at(m, "keyspace_hits"@),
        keyspace_misses: fields::number_at(m, "keyspace_misses"@),
        hit_ratio: hit_ratio_of(fields::number_at(m, "keyspace_hits"@), fields::number_at(m, "keyspace_misses"@)),
        ops_per_sec: fields::number_at(m, "instantaneous_ops_per_sec"@),
    }
}

/// Parses raw Redis INFO output.
///
/// Reachability is *not* set here: a parse of arbitrary text says nothing about whether a
/// server answered. Callers that actually connected set it.
pub fn parse_redis_info(info: &str) -> (r: RedisStatus)
    ensures
        r@ == info_status(info_map(text::lines_of(info@))),
{
    let map = read_info(info);
    let keyspace_hits = map.number("keyspace_hits");
    let keyspace_misses = map.number("keyspace_misses");
    let hit_ratio = match (keyspace_hits, keyspace_misses) {
        (Some(h), Some(m)) => match h.checked_add(m) {
            Some(total) => Ratio::new(h, total),
            None => None,
        },
        _ => None,
    };
    RedisStatus {
        is_configured: false,
        is_reachable: false,
        endpoint: None,
        probe: ProbeOutcome::NotAttempted,
        version: map.owned("redis_version"),
        used_memory_bytes: map.number("used_memory"),
        used_memory_peak_bytes: map.number("used_memory_peak"),
        maxmemory_bytes: map.number("maxmemory"),
        maxmemory_policy: map.owned("maxmemory_policy"),
        mem_fragmentation_ratio: match map.get("mem_fragmentation_ratio") {
            Some(v) => Ratio::parse(v),
            None => None,
        },
        evicted_keys: map.number("evicted_keys"),
        connected_clients: map.number("connected_clients"),
        blocked_clients: map.number("blocked_clients"),
        keyspace_hits,
        keyspace_misses,
        hit_ratio,
        ops_per_sec: map.number("instantaneous_ops_per_sec"),
    }
}

/// Which reply a probe waits for.
#[derive(Debug, Clone)]
pub enum RedisStage {
    Auth,
    Info,
    /// INFO is known.
    Config { info: String },
}

/// How a probe goes on.
#[derive(Debug, Clone)]
pub enum RedisMove {
    /// Send a command and wait for its reply.
    Send { stage: RedisStage, args: Vec<String> },
    Done { info: String, config: FieldMap },
    Failed { reason: String },
}

/// What a [`RedisStage`] says.
pub enum RedisStageView {
    Auth,
    Info,
    Config { info: Seq<char> },
}

/// What a [`RedisMove`] says.
pub enum RedisMoveView {
    Send { stage: RedisStageView, args: Seq<Seq<char>> },
    Done { info: Seq<char>, config: Map<Seq<char>, Seq<char>> },
    Failed { reason: Seq<char> },
}

impl View for RedisStage {
    type V = RedisStageView;

    open spec fn view(&self) -> RedisStageView {
        match self {
            RedisStage::Auth => RedisStageView::Auth,
            RedisStage::Info => RedisStageView::Info,
            RedisStage::Config { info } => RedisStageView::Config { info: info@ },
        }
    }
}

impl View for RedisMove {
    type V = RedisMoveView;

    open spec fn view(&self) -> RedisMoveView {
        match self {
            RedisMove::Send { stage, args } => RedisMoveView::Send {
                stage: stage@,
                args: text::texts(args@),
            },
            RedisMove::Done { info, config } => RedisMoveView::Done {
                info: info@,
                config: config@,
            },
            RedisMove::Failed { reason } => RedisMoveView::Failed { reason: reason@ },
        }
    }
}

/// Asking for INFO.
pub open spec fn ask_info() -> RedisMoveView {
    RedisMoveView::Send { stage: RedisStageView::Info, args: seq!["INFO"@] }
}

/// The first command of a probe: AUTH with a password that is more than white space, else
/// INFO.
pub open spec fn first_move(password: Option<Seq<char>>) -> RedisMoveView {
    match password {
        Some(p) if text::trimmed(p).len() > 0 => RedisMoveView::Send {
            stage: RedisStageView::Auth,
            args: seq!["AUTH"@, text::trimmed(p)],
        },
        _ => ask_info(),
    }
}

/// How a probe goes on after a reply, or after the reason why there is none. `CONFIG GET`
/// may be disabled or renamed on hardened instances; that is not fatal.
pub open spec fn next_move(
    stage: RedisStageView,
    reply: Result<Seq<char>, Seq<char>>,
) -> RedisMoveView {
    match (stage, reply) {
        (RedisStageView::Config { info }, Ok(text)) if !text::has_prefix(text, "-"@) =>
            RedisMoveView::Done { info, config: config_of(text) },
        (RedisStageView::Config { info }, _) => RedisMoveView::Done { info, config: Map::empty() },
        (_, Err(reason)) => RedisMoveView::Failed { reason },
        (RedisStageView::Auth, Ok(text)) => if text::has_prefix(text, "+OK"@) {
            ask_info()
        } else {
            RedisMoveView::Failed { reason: AUTH_REJECTED@ }
        },
        (RedisStageView::Info, Ok(text)) => if text::has_prefix(text, "-NOAUTH"@) || text::has_prefix(
            text,
            "-ERR operation not permitted"@,
        ) {
            RedisMoveView::Failed { reason: PASSWORD_REQUIRED@ }
        } else if text::has_prefix(text, "-"@) {
            RedisMoveView::Failed {
                reason: "INFO rejected: "@ + text::trim_start_of(text::trimmed(text), CharSet::One('-')),
            }
        } else {
            RedisMoveView::Send {
                stage: RedisStageView::Config { info: without_bulk_header(text) },
                args: seq!["CONFIG"@, "GET"@, "maxmemory*"@],
            }
        },
    }
}

fn info_command() -> (r: RedisMove)
    ensures
        r@ == ask_info(),
{
    let mut args: Vec<String> = Vec::new();
    args.push("INFO".to_owned());
    assert(text::texts(args@) =~= seq!["INFO"@]);
    RedisMove::Send { stage: RedisStage::Info, args }
}

/// The first command of a probe.
pub fn start_probe(password: Option<&str>) -> (r: RedisMove)
    ensures
        r@ == first_move(text::str_opt(password)),
{
    if let Some(p) = password {
        let pass = trim(p);
        if !is_blank(&pass) {
            let mut args: Vec<String> = Vec::new();
            args.push("AUTH".to_owned());
            args.push(pass);
            assert(text::texts(args@) =~= seq!["AUTH"@, text::trimmed(p@)]);
            return RedisMove::Send { stage: RedisStage::Auth, args };
        }
    }
    info_command()
}

/// What a reply says, or why there is none.
pub open spec fn reply_result(r: Result<&str, &str>) -> Result<Seq<char>, Seq<char>> {
    match r {
        Ok(t) => Ok(t@),
        Err(e) => Err(e@),
    }
}

/// Decides how a probe goes on after a reply.
pub fn continue_probe(stage: RedisStage, reply: Result<&str, &str>) -> (r: RedisMove)
    ensures
        r@ == next_move(stage@, reply_result(reply)),
{
    match stage {
        RedisStage::Config { info } => match reply {
            Ok(text) => if starts_with(text, "-") {
                RedisMove::Done { info, config: FieldMap::new() }
            } else {
                RedisMove::Done { info, config: parse_config_get(text) }
            },
            Err(_) => RedisMove::Done { info, config: FieldMap::new() },
        },
        RedisStage::Auth => match reply {
            Ok(text) => if starts_with(text, "+OK") {
                info_command()
            } else {
                RedisMove::Failed { reason: AUTH_REJECTED.to_owned() }
            },
            Err(reason) => RedisMove::Failed { reason: reason.to_owned() },
        },
        RedisStage::Info => match reply {
            Ok(text) => if starts_with(text, "-NOAUTH") || starts_with(
                text,
                "-ERR operation not permitted",
            ) {
                RedisMove::Failed { reason: PASSWORD_REQUIRED.to_owned() }
            } else if starts_with(text, "-") {
                RedisMove::Failed {
                    reason: "INFO rejected: ".to_owned().concat(
                        trim_start_matches(&trim(text), CharSet::One('-')).as_str(),
                    ),
                }
            } else {
                let mut args: Vec<String> = Vec::new();
                args.push("CONFIG".to_owned());
                args.push("GET".to_owned());
                args.push("maxmemory*".to_owned());
                assert(text::texts(args@) =~= seq!["CONFIG"@, "GET"@, "maxmemory*"@]);
                RedisMove::Send {
                    stage: RedisStage::Config { info: strip_bulk_header(text) },
                    args,
                }
            },
            Err(reason) => RedisMove::Failed { reason: reason.to_owned() },
        },
    }
}

/// What is known of an instance that did not answer as it should.
pub open spec fn failed_status(endpoint: Seq<char>, reason: Seq<char>) -> RedisStatusView {
    RedisStatusView {
        is_configured: true,
        endpoint: Some(endpoint),
        probe: ProbeOutcomeView::Failed { reason },
        ..RedisStatusView::unset()
    }
}

/// What is known of an instance that answered. `CONFIG GET` is authoritative for the memory
/// policy and limit; on some builds INFO omits the fields entirely.
pub open spec fn answered_status(
    endpoint: Seq<char>,
    info: Seq<char>,
    config: Map<Seq<char>, Seq<char>>,
) -> RedisStatusView {
    let parsed = info_status(info_map(text::lines_of(info)));
    RedisStatusView {
        is_configured: true,
        is_reachable: true,
        endpoint: Some(endpoint),
        probe: ProbeOutcomeView::Succeeded,
        maxmemory_policy: match fields::lookup(config, "maxmemory-policy"@) {
            Some(p) => Some(p),
            None => parsed.maxmemory_policy,
        },
        maxmemory_bytes: match fields::number_at(config, "maxmemory"@) {
            Some(n) => Some(n),
            None => parsed.maxmemory_bytes,
        },
        ..parsed
    }
}

/// What a probe of an endpoint came to: reachable only with an answer, and with the reason
/// otherwise.
pub open spec fn probed_status(endpoint: EndpointView, outcome: RedisMoveView) -> RedisStatusView {
    if endpoint.is_unix_socket {
        failed_status(endpoint.shown(), UNIX_SOCKET_REASON@)
    } else {
        match outcome {
            RedisMoveView::Done { info, config } => answered_status(
                endpoint.shown(),
                info,
                config,
            ),
            RedisMoveView::Failed { reason } => failed_status(endpoint.shown(), reason),
            RedisMoveView::Send { .. } => failed_status(
                endpoint.shown(),
                "timed out sending command"@,
            ),
        }
    }
}

fn report_failure(endpoint: &Endpoint, reason: &str) -> (r: RedisStatus)
    ensures
        r@ == failed_status(endpoint@.shown(), reason@),
{
    let mut status = RedisStatus::default();
    status.is_configured = true;
    status.endpoint = Some(endpoint.describe());
    status.probe = ProbeOutcome::failed(reason);
    status
}

/// Turns the outcome of a probe into the status of the instance. The `probe` field explains
/// any failure, so an authenticated or unreachable instance is never mistaken for a healthy
/// one. A probe that stopped with a command to send ran out of time.
pub fn inspect_redis(endpoint: &Endpoint, outcome: &RedisMove) -> (r: RedisStatus)
    ensures
        r@ == probed_status(endpoint@, outcome@),
{
    if endpoint.is_unix_socket {
        return report_failure(endpoint, UNIX_SOCKET_REASON);
    }
    match outcome {
        RedisMove::Done { info, config } => {
            let mut status = parse_redis_info(info);
            if let Some(policy) = config.owned("maxmemory-policy") {
                status.maxmemory_policy = Some(policy);
            }
            if let Some(max) = config.number("maxmemory") {
                status.maxmemory_bytes = Some(max);
            }
            status.is_configured = true;
            status.is_reachable = true;
            status.endpoint = Some(endpoint.describe());
            status.probe = ProbeOutcome::Succeeded;
            status
        },
        RedisMove::Failed { reason } => report_failure(endpoint, reason),
        RedisMove::Send { .. } => report_failure(endpoint, "timed out sending command"),
    }
}

/// The reason to report when no connection came about.
pub open spec fn refused(addr: Seq<char>, reason: Seq<char>) -> Seq<char> {
    "connection to "@ + addr + " failed: "@ + reason
}

pub fn connection_refused(addr: &str, reason: &str) -> (r: RedisMove)
    ensures
        r@ == (RedisMoveView::Failed { reason: refused(addr@, reason@) }),
{
    RedisMove::Failed {
        reason: "connection to ".to_owned().concat(addr).concat(" failed: ").concat(reason),
    }
}

pub fn connection_timed_out(addr: &str) -> (r: RedisMove)
    ensures
        r@ == (RedisMoveView::Failed { reason: "connection to "@ + addr@ + " timed out"@ }),
{
    RedisMove::Failed { reason: "connection to ".to_owned().concat(addr).concat(" timed out") }
}

/// The parse of INFO text never claims that a server answered.
pub proof fn law_info_claims_no_reachability(info: Seq<char>)
    ensures
        ({
            let status = info_status(info_map(text::lines_of(info)));
            !status.is_reachable && !status.is_configured && status.probe is NotAttempted
        }),
{
}

/// An instance is reported reachable exactly when the probe ended with INFO in hand, over
/// TCP; otherwise no figure is reported, only why.
pub proof fn law_reachable_means_answered(endpoint: EndpointView, outcome: RedisMoveView)
    ensures
        ({
            let status = probed_status(endpoint, outcome);
            &&& status.is_configured
            &&& status.is_reachable <==> (outcome is Done && !endpoint.is_unix_socket)
            &&& status.probe is Succeeded <==> status.is_reachable
            &&& !status.is_reachable ==> status == failed_status(
                endpoint.shown(),
                status.probe->reason,
            )
        }),
{
}

/// What `CONFIG GET` says of the memory policy and limit wins over INFO.
pub proof fn law_config_wins(endpoint: EndpointView, info: Seq<char>, config: Map<
    Seq<char>,
    Seq<char>,
>)
    requires
        !endpoint.is_unix_socket,
    ensures
        ({
            let status = probed_status(endpoint, RedisMoveView::Done { info, config });
            &&& fields::lookup(config, "maxmemory-policy"@) is Some ==> status.maxmemory_policy == fields::lookup(
                config,
                "maxmemory-policy"@,
            )
            &&& fields::number_at(config, "maxmemory"@) is Some ==> status.maxmemory_bytes == fields::number_at(
                config,
                "maxmemory"@,
            )
        }),
{
}

/// However a server rejects a password, the reason reported is the same text: neither the
/// password nor the server's words are in it.
pub proof fn law_rejected_password_is_not_echoed(reply: Seq<char>)
    requires
        !text::has_prefix(reply, "+OK"@),
    ensures
        next_move(RedisStageView::Auth, Ok(reply)) == (RedisMoveView::Failed {
            reason: AUTH_REJECTED@,
        }),
{
}

/// A bulk string reply is complete exactly when as many bytes as it announces, and the line
/// end behind them, are there.
pub proof fn law_bulk_reply_completeness(n: nat, rest: Seq<char>)
    requires
        n <= i64::MAX,
    ensures
        reply_is_complete(encode_utf8("$"@ + number::dec(n) + "\r\n"@ + rest)) <==> encode_utf8(rest).len()
            >= n + 2,
{
    reveal_strlit("$");
    reveal_strlit("\r\n");
    let header = "$"@ + number::dec(n);
    let text = header + "\r\n"@ + rest;
    let buf = encode_utf8(text);
    encode_utf8_valid_utf8(text);
    encode_utf8_decode_utf8(text);
    assert(buf[0] == 36) by {
        assert(text[0] == '$');
        assert(has_width_1_encoding(36));
        assert((36u32 & 0x7f) as u8 == 36) by (bit_vector);
        assert(leading_byte_width_1(36) == 36);
        assert(encode_scalar(36).len() == 1);
    }
    number::law_dec_reads_back(n, i64::MAX as nat);
    let k = header.len() as int;
    assert(text.subrange(k, k + 2) =~= "\r\n"@);
    assert forall|j: int| 0 <= j < k implies !text::occurs_at(text, "\r\n"@, j) by {
        if text::occurs_at(text, "\r\n"@, j) {
            assert(text.subrange(j, j + 2)[0] == text[j]);
            if j > 0 {
                assert(text[j] == number::dec(n)[j - 1]);
            }
        }
    }
    text::lemma_found_at(text, "\r\n"@, k);
    assert(text.take(k) =~= header);
    assert(text.skip(k + 2) =~= rest);
    assert(header.skip(1) =~= number::dec(n));
    assert('0' <= number::dec(n)[0] <= '9');
}

/// How many line ends there are in a text.
pub open spec fn line_ends(s: Seq<char>) -> nat
    decreases s.len(),
{
    if s.len() < 2 {
        0
    } else {
        line_ends(s.drop_last()) + (if s[s.len() - 2] == '\r' && s.last() == '\n' {
            1nat
        } else {
            0nat
        })
    }
}

/// How many line ends there are from a position on.
spec fn line_ends_from(s: Seq<char>, i: int) -> nat
    decreases s.len() - i,
{
    if i < 0 || i + 2 > s.len() {
        0
    } else {
        line_ends_from(s, i + 1) + (if s[i] == '\r' && s[i + 1] == '\n' {
            1nat
        } else {
            0nat
        })
    }
}

proof fn lemma_line_ends_push(s: Seq<char>, c: char, i: int)
    requires
        0 <= i <= s.len(),
    ensures
        line_ends_from(s.push(c), i) == line_ends_from(s, i) + (if i < s.len() && s.last() == '\r' && c
            == '\n' {
            1nat
        } else {
            0nat
        }),
    decreases s.len() - i,
{
    let more = s.push(c);
    if i + 2 <= s.len() {
        lemma_line_ends_push(s, c, i + 1);
        assert(more[i] == s[i] && more[i + 1] == s[i + 1]);
    } else if i + 1 == s.len() {
        assert(more[i] == s.last() && more[i + 1] == c);
        assert(line_ends_from(more, i + 1) == 0);
    }
}

proof fn lemma_line_ends(s: Seq<char>)
    ensures
        line_ends_from(s, 0) == line_ends(s),
    decreases s.len(),
{
    if s.len() > 0 {
        lemma_line_ends(s.drop_last());
        lemma_line_ends_push(s.drop_last(), s.last(), 0);
        assert(s.drop_last().push(s.last()) =~= s);
        if s.len() >= 2 {
            assert(s.drop_last().last() == s[s.len() - 2]);
        }
    }
}

/// Where a line end is.
proof fn lemma_occurs(s: Seq<char>, i: int)
    ensures
        text::occurs_at(s, "\r\n"@, i) <==> 0 <= i && i + 2 <= s.len() && s[i] == '\r' && s[i + 1]
            == '\n',
{
    reveal_strlit("\r\n");
    if 0 <= i && i + 2 <= s.len() {
        let at = s.subrange(i, i + 2);
        assert(at[0] == s[i] && at[1] == s[i + 1]);
        if s[i] == '\r' && s[i + 1] == '\n' {
            assert(at =~= "\r\n"@);
        }
    }
}

proof fn lemma_no_line_end(s: Seq<char>, i: int, j: int)
    requires
        0 <= i <= j,
        forall|k: int| i <= k < j ==> !text::occurs_at(s, "\r\n"@, k),
    ensures
        line_ends_from(s, i) == line_ends_from(s, j),
    decreases j - i,
{
    if i < j {
        lemma_no_line_end(s, i + 1, j);
        lemma_occurs(s, i);
        assert(!text::occurs_at(s, "\r\n"@, i));
    }
}

/// Line ends do not overlap, so the pieces between them count them.
proof fn lemma_pieces_count(s: Seq<char>, i: int)
    requires
        0 <= i <= s.len(),
    ensures
        text::pieces_from(s, "\r\n"@, i).len() == line_ends_from(s, i) + 1,
    decreases s.len() - i,
{
    reveal_strlit("\r\n");
    text::lemma_find_from(s, "\r\n"@, i);
    match text::find_from(s, "\r\n"@, i) {
        Some(j) => {
            lemma_no_line_end(s, i, j);
            lemma_occurs(s, j);
            lemma_pieces_count(s, j + 2);
            assert(line_ends_from(s, j) == line_ends_from(s, j + 1) + 1);
            assert(line_ends_from(s, j + 1) == line_ends_from(s, j + 2));
        },
        None => {
            lemma_no_line_end(s, i, s.len() as int);
        },
    }
}

/// The line ends of a text that does not end in the middle of one, and of what follows it.
proof fn lemma_line_ends_concat(a: Seq<char>, b: Seq<char>)
    requires
        a.len() > 0 && b.len() > 0 ==> !(a.last() == '\r' && b[0] == '\n'),
    ensures
        line_ends(a + b) == line_ends(a) + line_ends(b),
    decreases b.len(),
{
    let all = a + b;
    if b.len() == 0 {
        assert(all =~= a);
    } else {
        let init = b.drop_last();
        if init.len() > 0 {
            assert(init[0] == b[0]);
        }
        lemma_line_ends_concat(a, init);
        assert(all.drop_last() =~= a + init);
        assert(all.last() == b.last());
        if b.len() >= 2 {
            assert(all[all.len() - 2] == b[b.len() - 2]);
        } else if a.len() > 0 {
            assert(all[all.len() - 2] == a.last());
            assert(b.last() == b[0]);
        }
    }
}

/// Text with a line end behind it has one more.
proof fn lemma_line_ended(s: Seq<char>)
    ensures
        line_ends(s + "\r\n"@) == line_ends(s) + 1,
        line_ends((s + "\r\n"@).drop_last()) == line_ends(s),
{
    reveal_strlit("\r\n");
    let all = s + "\r\n"@;
    let cut = all.drop_last();
    assert(all[all.len() - 2] == '\r' && all.last() == '\n');
    assert(cut.last() == '\r');
    assert(cut.drop_last() =~= s);
    assert(line_ends(cut) == line_ends(s));
    assert(line_ends(all) == line_ends(cut) + 1);
}

/// Text in which no line end occurs has none.
proof fn lemma_no_line_ends(s: Seq<char>)
    requires
        !text::contains_text(s, "\r\n"@),
    ensures
        line_ends(s) == 0,
{
    text::lemma_find_from(s, "\r\n"@, 0);
    lemma_no_line_end(s, 0, s.len() as int);
    lemma_line_ends(s);
}

/// The beginning of a text has no more line ends than the whole.
proof fn lemma_line_ends_take(s: Seq<char>, k: int)
    requires
        0 <= k <= s.len(),
    ensures
        line_ends(s.take(k)) <= line_ends(s),
    decreases s.len(),
{
    if k < s.len() {
        lemma_line_ends_take(s.drop_last(), k);
        assert(s.drop_last().take(k) =~= s.take(k));
    } else {
        assert(s.take(k) =~= s);
    }
}

/// One reply of a server.
pub enum WireReply {
    /// A simple string, an error or an integer.
    Line { marker: char, text: Seq<char> },
    Bulk { text: Seq<char> },
    /// A bulk string that is not there.
    Nil,
    /// An array of bulk strings.
    Array { items: Seq<Seq<char>> },
}

/// A bulk string as it is sent.
pub open spec fn bulk_text(text: Seq<char>) -> Seq<char> {
    "$"@ + number::dec(text.len()) + "\r\n"@ + text + "\r\n"@
}

/// Bulk strings as they are sent, one after the other.
pub open spec fn bulk_texts(items: Seq<Seq<char>>) -> Seq<char>
    decreases items.len(),
{
    if items.len() == 0 {
        Seq::empty()
    } else {
        bulk_texts(items.drop_last()) + bulk_text(items.last())
    }
}

impl WireReply {
    /// The reply as it is sent.
    pub open spec fn wire(self) -> Seq<char> {
        match self {
            WireReply::Line { marker, text } => seq![marker] + text + "\r\n"@,
            WireReply::Bulk { text } => bulk_text(text),
            WireReply::Nil => "$"@ + "-1"@ + "\r\n"@,
            WireReply::Array { items } => "*"@ + number::dec(items.len()) + "\r\n"@ + bulk_texts(items),
        }
    }

    /// A reply in ASCII: a line without a line end in it, a bulk string of any text, or an
    /// array whose elements are without line ends.
    pub open spec fn is_valid(self) -> bool {
        is_ascii_chars(self.wire()) && match self {
            WireReply::Line { marker, text } => {
                &&& marker == '+' || marker == '-' || marker == ':'
                &&& !text::contains_text(text, "\r\n"@)
            },
            WireReply::Bulk { text } => text.len() <= i64::MAX,
            WireReply::Nil => true,
            WireReply::Array { items } => {
                &&& items.len() <= i64::MAX
                &&& forall|i: int|
                    0 <= i < items.len() ==> !text::contains_text(#[trigger] items[i], "\r\n"@)
            },
        }
    }
}

/// Every element of an array has two line ends.
proof fn lemma_array_line_ends(items: Seq<Seq<char>>)
    requires
        forall|i: int|
            0 <= i < items.len() ==> !text::contains_text(#[trigger] items[i], "\r\n"@),
    ensures
        line_ends(bulk_texts(items)) == 2 * items.len(),
        items.len() > 0 ==> bulk_texts(items).len() > 0 && line_ends(
            bulk_texts(items).drop_last(),
        ) < 2 * items.len(),
    decreases items.len(),
{
    if items.len() > 0 {
        reveal_strlit("$");
        reveal_strlit("\r\n");
        let init = items.drop_last();
        let item = items.last();
        assert(item == items[items.len() - 1]);
        assert forall|i: int| 0 <= i < init.len() implies !text::contains_text(
            #[trigger] init[i],
            "\r\n"@,
        ) by {
            assert(init[i] == items[i]);
        }
        lemma_array_line_ends(init);
        let digits = number::dec(item.len());
        number::law_dec_reads_back(item.len(), item.len());
        let opening = "$"@ + digits;
        lemma_no_return(opening);
        lemma_line_ended(opening);
        let head = opening + "\r\n"@;
        lemma_no_line_ends(item);
        lemma_line_ends_concat(head, item);
        lemma_line_ended(head + item);
        let sent = bulk_text(item);
        assert(sent =~= head + item + "\r\n"@);
        let before = bulk_texts(init);
        lemma_line_ends_concat(before, sent);
        let cut = sent.drop_last();
        assert(cut[0] == sent[0]);
        lemma_line_ends_concat(before, cut);
        assert(bulk_texts(items).drop_last() =~= before + cut);
    }
}

/// A text without a carriage return has no line end.
proof fn lemma_no_return(s: Seq<char>)
    requires
        forall|i: int| 0 <= i < s.len() ==> #[trigger] s[i] != '\r',
    ensures
        line_ends(s) == 0,
    decreases s.len(),
{
    if s.len() >= 2 {
        lemma_no_return(s.drop_last());
    }
}

/// Where the header of a reply ends: at its first line end, and not before.
proof fn lemma_header(header: Seq<char>, rest: Seq<char>, k: int)
    requires
        forall|i: int| 0 <= i < header.len() ==> #[trigger] header[i] != '\r',
        0 <= k <= header.len() + 2 + rest.len(),
    ensures
        ({
            let p = (header + "\r\n"@ + rest).take(k);
            text::split_at_first(p, "\r\n"@) == if k < header.len() + 2 {
                None::<(Seq<char>, Seq<char>)>
            } else {
                Some((header, rest.take(k - header.len() - 2)))
            }
        }),
{
    reveal_strlit("\r\n");
    let whole = header + "\r\n"@ + rest;
    let p = whole.take(k);
    let h = header.len() as int;
    assert forall|j: int| 0 <= j < h implies !text::occurs_at(p, "\r\n"@, j) by {
        lemma_occurs(p, j);
        if j + 2 <= k {
            assert(p[j] == header[j]);
        }
    }
    text::lemma_find_from(p, "\r\n"@, 0);
    if k < h + 2 {
        assert forall|j: int| 0 <= j implies !text::occurs_at(p, "\r\n"@, j) by {
            lemma_occurs(p, j);
        }
    } else {
        lemma_occurs(p, h);
        assert(p[h] == whole[h] && p[h + 1] == whole[h + 1]);
        text::lemma_found_at(p, "\r\n"@, h);
        assert(p.take(h) =~= header);
        assert(p.skip(h + 2) =~= rest.take(k - h - 2));
    }
}

/// A part of an ASCII text has one byte for each character.
proof fn lemma_ascii_part(whole: Seq<char>, part: Seq<char>, from: int)
    requires
        is_ascii_chars(whole),
        0 <= from,
        from + part.len() <= whole.len(),
        part == whole.subrange(from, from + part.len()),
    ensures
        is_ascii_chars(part),
        encode_utf8(part).len() == part.len(),
{
    assert forall|i: int| 0 <= i < part.len() implies '\0' <= #[trigger] part[i] <= '\u{7f}' by {
        assert(part[i] == whole[from + i]);
    }
    is_ascii_chars_encode_utf8(part);
}

proof fn lemma_whole_line(marker: char, text: Seq<char>, k: int)
    requires
        (WireReply::Line { marker, text }).is_valid(),
        0 < k <= text.len() + 3,
    ensures
        ({
            let wire = (WireReply::Line { marker, text }).wire();
            reply_text_is_complete(wire[0] as u8, wire.take(k)) <==> k == wire.len()
        }),
{
    reveal_strlit("\r\n");
    let wire = (WireReply::Line { marker, text }).wire();
    let p = wire.take(k);
    let n = wire.len() as int;
    text::lemma_find_from(p, "\r\n"@, 0);
    text::lemma_find_from(text, "\r\n"@, 0);
    assert forall|j: int| 0 <= j && j < n - 2 implies !text::occurs_at(p, "\r\n"@, j) by {
        lemma_occurs(p, j);
        if j + 2 <= k && p[j] == '\r' && p[j + 1] == '\n' {
            assert(wire[j] == '\r' && wire[j + 1] == '\n');
            assert(j > 0);
            assert(j < n - 3);
            assert(text[j - 1] == wire[j] && text[j] == wire[j + 1]);
            lemma_occurs(text, j - 1);
        }
    }
    if k == n {
        lemma_occurs(p, n - 2);
        assert(p[n - 2] == wire[n - 2] && p[n - 1] == wire[n - 1]);
    } else if text::contains_text(p, "\r\n"@) {
        lemma_occurs(p, text::find_in(p, "\r\n"@)->0);
    }
}

proof fn lemma_whole_bulk(text: Seq<char>, k: int)
    requires
        (WireReply::Bulk { text }).is_valid(),
        0 < k <= bulk_text(text).len(),
    ensures
        reply_text_is_complete(36, bulk_text(text).take(k)) <==> k == bulk_text(text).len(),
{
    reveal_strlit("$");
    reveal_strlit("\r\n");
    let wire = bulk_text(text);
    let digits = number::dec(text.len());
    number::law_dec_reads_back(text.len(), i64::MAX as nat);
    let header = "$"@ + digits;
    let rest = text + "\r\n"@;
    let from = header.len() as int + 2;
    assert(wire =~= header + "\r\n"@ + rest);
    lemma_header(header, rest, k);
    assert(header.skip(1) =~= digits);
    assert('0' <= digits[0] <= '9');
    if k >= from {
        let part = rest.take(k - from);
        assert(part =~= wire.subrange(from, from + part.len()));
        lemma_ascii_part(wire, part, from);
    }
}

proof fn lemma_whole_nil(k: int)
    requires
        0 < k <= WireReply::Nil.wire().len(),
    ensures
        reply_text_is_complete(36, WireReply::Nil.wire().take(k)) <==> k == WireReply::Nil.wire().len(),
{
    reveal_strlit("$");
    reveal_strlit("-1");
    reveal_strlit("\r\n");
    let wire = WireReply::Nil.wire();
    let header = "$"@ + "-1"@;
    let rest = Seq::<char>::empty();
    assert(wire =~= header + "\r\n"@ + rest);
    lemma_header(header, rest, k);
    assert(header.skip(1) =~= "-1"@);
    assert("-1"@.skip(1) =~= seq!['1']);
    assert(number::digits_value(seq!['1'], 10) == Some(1nat));
}

proof fn lemma_whole_array(items: Seq<Seq<char>>, k: int)
    requires
        (WireReply::Array { items }).is_valid(),
        0 < k <= (WireReply::Array { items }).wire().len(),
    ensures
        reply_text_is_complete(42, (WireReply::Array { items }).wire().take(k)) <==> k == (
        WireReply::Array { items }).wire().len(),
{
    reveal_strlit("*");
    reveal_strlit("\r\n");
    let wire = (WireReply::Array { items }).wire();
    let digits = number::dec(items.len());
    number::law_dec_reads_back(items.len(), i64::MAX as nat);
    let header = "*"@ + digits;
    let rest = bulk_texts(items);
    let from = header.len() as int + 2;
    assert(wire =~= header + "\r\n"@ + rest);
    lemma_header(header, rest, k);
    assert(header.skip(1) =~= digits);
    assert('0' <= digits[0] <= '9');
    lemma_array_line_ends(items);
    if k >= from {
        let part = rest.take(k - from);
        lemma_pieces_count(part, 0);
        lemma_line_ends(part);
        if k == wire.len() {
            assert(part =~= rest);
        } else if items.len() > 0 {
            lemma_line_ends_take(rest.drop_last(), k - from);
            assert(rest.drop_last().take(k - from) =~= part);
        }
    }
}

/// Read byte by byte, a reply counts as complete when all of it is there, and not before.
pub proof fn law_only_a_whole_reply_is_complete(reply: WireReply, k: int)
    requires
        reply.is_valid(),
        0 <= k <= encode_utf8(reply.wire()).len(),
    ensures
        reply_is_complete(encode_utf8(reply.wire()).take(k)) <==> k == encode_utf8(
            reply.wire(),
        ).len(),
{
    reveal_strlit("$");
    reveal_strlit("*");
    reveal_strlit("\r\n");
    let wire = reply.wire();
    is_ascii_chars_encode_utf8(wire);
    let p = wire.take(k);
    assert(p =~= wire.subrange(0, k));
    lemma_ascii_part(wire, p, 0);
    let buf = encode_utf8(wire).take(k);
    is_ascii_chars_encode_utf8(p);
    assert forall|i: int| 0 <= i < k implies buf[i] == encode_utf8(p)[i] by {
        assert(p[i] == wire[i]);
        assert(wire[i] as u8 == encode_utf8(wire)[i]);
        assert(p[i] as u8 == encode_utf8(p)[i]);
    }
    assert(buf =~= encode_utf8(p));
    encode_utf8_valid_utf8(p);
    encode_utf8_decode_utf8(p);
    assert(wire.len() > 0);
    if k > 0 {
        assert(wire[0] as u8 == encode_utf8(wire)[0]);
        match reply {
            WireReply::Line { marker, text } => {
                lemma_whole_line(marker, text, k);
            },
            WireReply::Bulk { text } => {
                assert(wire[0] == '$');
                lemma_whole_bulk(text, k);
            },
            WireReply::Nil => {
                assert(wire[0] == '$');
                lemma_whole_nil(k);
            },
            WireReply::Array { items } => {
                assert(wire[0] == '*');
                lemma_whole_array(items, k);
            },
        }
    }
}

/// A field of INFO as a number.
pub open spec fn figure_in(m: Map<Seq<char>, Seq<char>>, key: Seq<char>) -> Option<u64> {
    if m.dom().contains(key) {
        number::parsed_u64(m[key])
    } else {
        None
    }
}

/// Each figure of an instance is the field of INFO under the server's own name for it, and
/// the hit ratio is the hits among all lookups.
pub proof fn law_info_figures(m: Map<Seq<char>, Seq<char>>, r: RedisStatus)
    requires
        r@ == info_status(m),
    ensures
        m.dom().contains("redis_version"@) ==> text::text_opt(r.version) == Some(
            m["redis_version"@],
        ),
        !m.dom().contains("redis_version"@) ==> r.version is None,
        m.dom().contains("maxmemory_policy"@) ==> text::text_opt(r.maxmemory_policy) == Some(
            m["maxmemory_policy"@],
        ),
        !m.dom().contains("maxmemory_policy"@) ==> r.maxmemory_policy is None,
        r.used_memory_bytes == figure_in(m, "used_memory"@),
        r.used_memory_peak_bytes == figure_in(m, "used_memory_peak"@),
        r.maxmemory_bytes == figure_in(m, "maxmemory"@),
        r.evicted_keys == figure_in(m, "evicted_keys"@),
        r.connected_clients == figure_in(m, "connected_clients"@),
        r.blocked_clients == figure_in(m, "blocked_clients"@),
        r.keyspace_hits == figure_in(m, "keyspace_hits"@),
        r.keyspace_misses == figure_in(m, "keyspace_misses"@),
        r.ops_per_sec == figure_in(m, "instantaneous_ops_per_sec"@),
        m.dom().contains("mem_fragmentation_ratio"@) ==> ratio::ratio_opt(r.mem_fragmentation_ratio)
            == ratio::decimal_of(m["mem_fragmentation_ratio"@]),
        !m.dom().contains("mem_fragmentation_ratio"@) ==> r.mem_fragmentation_ratio is None,
        r.hit_ratio is Some <==> (r.keyspace_hits is Some && r.keyspace_misses is Some && 0
            < r.keyspace_hits->0 + r.keyspace_misses->0 <= u64::MAX),
        r.hit_ratio is Some ==> (r.hit_ratio->0).num() == r.keyspace_hits->0 && (
        r.hit_ratio->0).den() == r.keyspace_hits->0 + r.keyspace_misses->0,
{
}

/// A line of INFO that is blank or a heading is passed over; any other with a colon sets the
/// name before it to the value behind it, both trimmed.
pub proof fn law_info_lines(lines: Seq<Seq<char>>, line: Seq<char>)
    ensures
        ({
            let text = text::trimmed(line);
            let before = info_map(lines);
            let after = info_map(lines.push(line));
            let at = text::split_at_first(text, ":"@);
            &&& text.len() == 0 || text[0] == '#' || at is None ==> after == before
            &&& text.len() > 0 && text[0] != '#' && at is Some ==> after == before.insert(
                text::trimmed((at->0).0),
                text::trimmed((at->0).1),
            )
        }),
{
    reveal_strlit("#");
    assert(lines.push(line).drop_last() =~= lines);
    let text = text::trimmed(line);
    if text.len() > 0 {
        assert(text.subrange(0, 1)[0] == text[0]);
        if text[0] == '#' {
            assert(text.subrange(0, 1) =~= "#"@);
        }
        assert("#"@[0] == '#');
    }
}

/// Of the lines of a reply to CONFIG GET, those that are empty or announce a length are
/// passed over.
pub proof fn law_config_lines(lines: Seq<Seq<char>>, line: Seq<char>)
    ensures
        line.len() == 0 || line[0] == '$' ==> payload_lines(lines.push(line)) == payload_lines(
            lines,
        ),
        line.len() > 0 && line[0] != '$' ==> payload_lines(lines.push(line)) == payload_lines(
            lines,
        ).push(line),
{
    reveal_strlit("$");
    assert(lines.push(line).drop_last() =~= lines);
    if line.len() > 0 {
        assert(line.subrange(0, 1)[0] == line[0]);
        if line[0] == '$' {
            assert(line.subrange(0, 1) =~= "$"@);
        }
        assert("$"@[0] == '$');
    }
}

/// The lines that are left name a setting and give its value by turns.
pub proof fn law_config_pairs(list: Seq<Seq<char>>, n: nat, k: int)
    requires
        2 * n <= list.len(),
        0 <= k < n,
        forall|j: int| k < j < n ==> #[trigger] list[2 * j] != list[2 * k],
    ensures
        pairs_map(list, n).dom().contains(list[2 * k]),
        pairs_map(list, n)[list[2 * k]] == list[2 * k + 1],
    decreases n,
{
    let last = n - 1;
    if k < last {
        assert(list[2 * last] != list[2 * k]);
        law_config_pairs(list, (n - 1) as nat, k);
    }
}

/// No setting comes from anywhere but the names among those lines.
pub proof fn law_config_names(list: Seq<Seq<char>>, n: nat, key: Seq<char>)
    requires
        2 * n <= list.len(),
        pairs_map(list, n).dom().contains(key),
    ensures
        exists|k: int| 0 <= k < n && #[trigger] list[2 * k] == key,
    decreases n,
{
    let last = n - 1;
    if list[2 * last] != key {
        law_config_names(list, (n - 1) as nat, key);
        let k = choose|k: int| 0 <= k < n - 1 && #[trigger] list[2 * k] == key;
        assert(list[2 * k] == key);
    } else {
        assert(list[2 * last] == key);
    }
}

/// The header of a bulk reply is taken off, and a reply of another kind is kept.
pub proof fn law_bulk_header(n: nat, body: Seq<char>, other: Seq<char>)
    requires
        n <= i64::MAX,
        other.len() == 0 || other[0] != '$',
    ensures
        without_bulk_header("$"@ + number::dec(n) + "\r\n"@ + body) == body,
        without_bulk_header(other) == other,
{
    reveal_strlit("$");
    reveal_strlit("\r\n");
    let digits = number::dec(n);
    let reply = "$"@ + digits + "\r\n"@ + body;
    let rest = digits + "\r\n"@ + body;
    number::law_dec_reads_back(n, i64::MAX as nat);
    assert(reply.subrange(0, 1) =~= "$"@);
    assert(reply.skip(1) =~= rest);
    assert forall|i: int| 0 <= i < digits.len() implies #[trigger] digits[i] != '\r' by {
        assert('0' <= digits[i] <= '9');
    }
    lemma_header(digits, body, rest.len() as int);
    assert(rest.take(rest.len() as int) =~= rest);
    assert(body.take(body.len() as int) =~= body);
    if other.len() > 0 {
        assert(other.subrange(0, 1)[0] == other[0]);
        assert("$"@[0] == '$');
    }
}

/// The conversation with an instance: a password that is not blank is sent first, then INFO,
/// then the memory settings. A rejected password, a refused INFO and a failed read end it
/// with the reason; settings that cannot be read do not.
pub proof fn law_conversation(password: Option<Seq<char>>, text: Seq<char>, info: Seq<char>)
    ensures
        password matches Some(p) ==> (text::trimmed(p).len() > 0 ==> first_move(password) == (
        RedisMoveView::Send {
            stage: RedisStageView::Auth,
            args: seq!["AUTH"@, text::trimmed(p)],
        })),
        password is None || text::trimmed(password->0).len() == 0 ==> first_move(password) == (
        RedisMoveView::Send { stage: RedisStageView::Info, args: seq!["INFO"@] }),
        text::has_prefix(text, "+OK"@) ==> next_move(RedisStageView::Auth, Ok(text)) == (
        RedisMoveView::Send { stage: RedisStageView::Info, args: seq!["INFO"@] }),
        !text::has_prefix(text, "+OK"@) ==> next_move(RedisStageView::Auth, Ok(text)) == (
        RedisMoveView::Failed {
            reason: "AUTH rejected: check the password supplied for this instance"@,
        }),
        text::has_prefix(text, "-NOAUTH"@) || text::has_prefix(
            text,
            "-ERR operation not permitted"@,
        ) ==> next_move(RedisStageView::Info, Ok(text)) == (RedisMoveView::Failed {
            reason: "instance requires a password (pass --redis-password)"@,
        }),
        !text::has_prefix(text, "-"@) && !text::has_prefix(text, "-NOAUTH"@) && !text::has_prefix(
            text,
            "-ERR operation not permitted"@,
        ) ==> next_move(RedisStageView::Info, Ok(text)) == (RedisMoveView::Send {
            stage: RedisStageView::Config { info: without_bulk_header(text) },
            args: seq!["CONFIG"@, "GET"@, "maxmemory*"@],
        }),
        text::has_prefix(text, "-"@) && !text::has_prefix(text, "-NOAUTH"@) && !text::has_prefix(
            text,
            "-ERR operation not permitted"@,
        ) ==> next_move(RedisStageView::Info, Ok(text)) == (RedisMoveView::Failed {
            reason: "INFO rejected: "@ + text::trim_start_of(
                text::trimmed(text),
                CharSet::One('-'),
            ),
        }),
        next_move(RedisStageView::Auth, Err(text)) == (RedisMoveView::Failed { reason: text }),
        next_move(RedisStageView::Info, Err(text)) == (RedisMoveView::Failed { reason: text }),
        !text::has_prefix(text, "-"@) ==> next_move(RedisStageView::Config { info }, Ok(text)) == (
        RedisMoveView::Done { info, config: config_of(text) }),
        text::has_prefix(text, "-"@) ==> next_move(RedisStageView::Config { info }, Ok(text)) == (
        RedisMoveView::Done { info, config: Map::empty() }),
        next_move(RedisStageView::Config { info }, Err(text)) == (RedisMoveView::Done {
            info,
            config: Map::empty(),
        }),
{
}

/// What an answered probe reports is what INFO says, but for the two memory settings, which
/// are those of CONFIG where it gives them.
pub proof fn law_answered_probe(
    endpoint: EndpointView,
    info: Seq<char>,
    config: Map<Seq<char>, Seq<char>>,
)
    requires
        !endpoint.is_unix_socket,
    ensures
        ({
            let told = info_status(info_map(text::lines_of(info)));
            let status = probed_status(endpoint, RedisMoveView::Done { info, config });
            let policy = "maxmemory-policy"@;
            let max = "maxmemory"@;
            &&& status.is_configured && status.is_reachable && status.probe is Succeeded
            &&& status.endpoint == Some(endpoint.shown())
            &&& status.maxmemory_policy == if config.dom().contains(policy) {
                Some(config[policy])
            } else {
                told.maxmemory_policy
            }
            &&& status.maxmemory_bytes == if figure_in(config, max) is Some {
                figure_in(config, max)
            } else {
                told.maxmemory_bytes
            }
            &&& status.version == told.version && status.used_memory_bytes
                == told.used_memory_bytes && status.used_memory_peak_bytes
                == told.used_memory_peak_bytes
            &&& status.mem_fragmentation_ratio == told.mem_fragmentation_ratio
                && status.evicted_keys == told.evicted_keys && status.connected_clients
                == told.connected_clients && status.blocked_clients == told.blocked_clients
            &&& status.keyspace_hits == told.keyspace_hits && status.keyspace_misses
                == told.keyspace_misses && status.hit_ratio == told.hit_ratio
                && status.ops_per_sec == told.ops_per_sec
        }),
{
}

/// What a failed probe reports: the endpoint and the reason, and no figure.
pub proof fn law_failed_probe(endpoint: EndpointView, outcome: RedisMoveView)
    requires
        endpoint.is_unix_socket || !(outcome is Done),
    ensures
        ({
            let status = probed_status(endpoint, outcome);
            let reason = if endpoint.is_unix_socket {
                "unix socket endpoints are not supported over TCP"@
            } else {
                match outcome {
                    RedisMoveView::Failed { reason } => reason,
                    _ => "timed out sending command"@,
                }
            };
            &&& status.is_configured && !status.is_reachable
            &&& status.endpoint == Some(endpoint.shown())
            &&& status.probe == (ProbeOutcomeView::Failed { reason })
            &&& status.version is None && status.used_memory_bytes is None
                && status.maxmemory_policy is None && status.evicted_keys is None
                && status.hit_ratio is None && status.maxmemory_bytes is None
        }),
{
}

/// A reply is read until it is complete or longer than 256 KiB; the end of the stream ends
/// it, and a failed or a late read loses it, unless it was complete by then.
pub proof fn law_reading_a_reply(buf: Seq<u8>, event: ReadEvent)
    ensures
        ({
            let step = reply_step_after(buf, event);
            let whole = if buf.len() == 0 {
                ReplyStepView::Fail("no reply from server"@)
            } else {
                ReplyStepView::Reply(bytes::text_in(buf))
            };
            &&& event is Closed ==> step == whole
            &&& event is Received && (buf.len() > 262_144 || reply_is_complete(buf)) ==> step
                == whole
            &&& event is Received && buf.len() <= 262_144 && !reply_is_complete(buf) ==> step
                == ReplyStepView::More
            &&& event is TimedOut && reply_is_complete(buf) ==> step == whole
            &&& event is TimedOut && !reply_is_complete(buf) ==> step == ReplyStepView::Fail(
                "timed out reading reply"@,
            )
            &&& event matches ReadEvent::Failed(reason) ==> step == ReplyStepView::Fail(
                "read failed: "@ + reason@,
            )
        }),
{
}

/// A command in ASCII goes out as an array of bulk strings: read as a reply, it is whole.
pub proof fn law_command_is_an_array(args: Seq<Seq<char>>)
    requires
        forall|i: int| 0 <= i < args.len() ==> is_ascii_chars(#[trigger] args[i]),
    ensures
        resp_command(args) == (WireReply::Array { items: args }).wire(),
{
    lemma_arguments(args);
}

proof fn lemma_arguments(args: Seq<Seq<char>>)
    requires
        forall|i: int| 0 <= i < args.len() ==> is_ascii_chars(#[trigger] args[i]),
    ensures
        resp_arguments(args) == bulk_texts(args),
    decreases args.len(),
{
    if args.len() > 0 {
        let init = args.drop_last();
        assert(forall|i: int| 0 <= i < init.len() ==> #[trigger] init[i] == args[i]);
        lemma_arguments(init);
        let a = args.last();
        assert(a == args[args.len() - 1]);
        is_ascii_chars_encode_utf8(a);
        assert(encode_utf8(a).len() == a.len());
        assert(resp_arguments(args) =~= bulk_texts(args));
    }
}

} // verus!
