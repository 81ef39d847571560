//! A minimal HTTP/1.1 exchange for status-page probes: the request text, the framing of the
//! response, and its parts.
//!
//! What matters is that the *whole* response is read under one overall deadline and that
//! the status code surfaces, so a slow or authenticated endpoint is reported as "probe
//! failed" rather than mistaken for an unhealthy service.

use crate::base64::{self, base64_encode};
use crate::bytes::{self, find_bytes, lossy_text};
use crate::endpoints::{self, host_port_text};
use crate::fields::{self, read_fields, FieldMap};
use crate::number::{self, num, parse_u16, parse_usize};
use crate::text::{
    self, before_any, contains, lines, split_whitespace, to_ascii_lowercase, trim, CharSet,
};
use vstd::prelude::*;
use vstd::string::*;
use vstd::slice::*;

verus! {

/// Hard ceiling on a response, so a pathological endpoint cannot exhaust memory.
pub const MAX_BODY_BYTES: usize = 1_048_576;

/// Why an HTTP probe did not produce a usable response.
#[derive(Debug, Clone, PartialEq, Eq)]
pub enum HttpProbeError {
    Connect { addr: String, reason: String },
    /// The deadline, in milliseconds, passed.
    Timeout(u64),
    Incomplete,
    Malformed,
    Io(String),
}

/// What an [`HttpProbeError`] says.
pub enum HttpProbeErrorView {
    Connect { addr: Seq<char>, reason: Seq<char> },
    Timeout(u64),
    Incomplete,
    Malformed,
    Io(Seq<char>),
}

impl View for HttpProbeError {
    type V = HttpProbeErrorView;

    open spec fn view(&self) -> HttpProbeErrorView {
        match self {
            HttpProbeError::Connect { addr, reason } => HttpProbeErrorView::Connect {
                addr: addr@,
                reason: reason@,
            },
            HttpProbeError::Timeout(ms) => HttpProbeErrorView::Timeout(*ms),
            HttpProbeError::Incomplete => HttpProbeErrorView::Incomplete,
            HttpProbeError::Malformed => HttpProbeErrorView::Malformed,
            HttpProbeError::Io(reason) => HttpProbeErrorView::Io(reason@),
        }
    }
}

/// A number of milliseconds in the largest unit that suits it.
pub open spec fn span_of(ms: u64) -> Seq<char> {
    let rest = ms % 1000;
    if ms == 0 {
        "0ns"@
    } else if ms < 1000 {
        number::dec(ms as nat) + "ms"@
    } else if rest == 0 {
        number::dec((ms / 1000) as nat) + "s"@
    } else if rest % 100 == 0 {
        number::dec((ms / 1000) as nat) + "."@ + number::dec((rest / 100) as nat) + "s"@
    } else if rest % 10 == 0 {
        number::dec((ms / 1000) as nat) + "."@ + number::dec((rest / 100) as nat) + number::dec((rest / 10 % 10) as nat)
            + "s"@
    } else {
        number::dec((ms / 1000) as nat) + "."@ + number::dec((rest / 100) as nat) + number::dec((rest / 10 % 10) as nat)
            + number::dec((rest % 10) as nat) + "s"@
    }
}

fn span_text(ms: u64) -> (r: String)
    ensures
        r@ == span_of(ms),
{
    let rest: u64 = ms % 1000;
    if ms == 0 {
        "0ns".to_owned()
    } else if ms < 1000 {
        num(ms).concat("ms")
    } else if rest == 0 {
        num(ms / 1000).concat("s")
    } else if rest % 100 == 0 {
        num(ms / 1000).concat(".").concat(num(rest / 100).as_str()).concat("s")
    } else if rest % 10 == 0 {
        num(ms / 1000).concat(".").concat(num(rest / 100).as_str()).concat(
            num(rest / 10 % 10).as_str(),
        ).concat("s")
    } else {
        num(ms / 1000).concat(".").concat(num(rest / 100).as_str()).concat(
            num(rest / 10 % 10).as_str(),
        ).concat(num(rest % 10).as_str()).concat("s")
    }
}

impl HttpProbeErrorView {
    pub open spec fn described(self) -> Seq<char> {
        match self {
            HttpProbeErrorView::Connect { addr, reason } => "connection to "@ + addr + " failed: "@
                + reason,
            HttpProbeErrorView::Timeout(ms) => "timed out after "@ + span_of(ms),
            HttpProbeErrorView::Incomplete =>
                "connection closed before a complete response was received"@,
            HttpProbeErrorView::Malformed => "malformed HTTP response"@,
            HttpProbeErrorView::Io(reason) => "i/o error: "@ + reason,
        }
    }
}

impl HttpProbeError {
    /// The error in words.
    pub fn describe(&self) -> (r: String)
        ensures
            r@ == self@.described(),
    {
        match self {
            HttpProbeError::Connect { addr, reason } => "connection to ".to_owned().concat(
                addr.as_str(),
            ).concat(" failed: ").concat(reason.as_str()),
            HttpProbeError::Timeout(ms) => "timed out after ".to_owned().concat(
                span_text(*ms).as_str(),
            ),
            HttpProbeError::Incomplete =>
                "connection closed before a complete response was received".to_owned(),
            HttpProbeError::Malformed => "malformed HTTP response".to_owned(),
            HttpProbeError::Io(reason) => "i/o error: ".to_owned().concat(reason.as_str()),
        }
    }
}

/// A parsed HTTP response.
#[derive(Debug, Clone)]
pub struct HttpResponse {
    pub status: u16,
    /// Header names are in lower case.
    pub headers: FieldMap,
    pub body: String,
}

/// What an [`HttpResponse`] holds.
#[verifier::ext_equal]
pub struct HttpResponseView {
    pub status: u16,
    pub headers: Map<Seq<char>, Seq<char>>,
    pub body: Seq<char>,
}

impl View for HttpResponse {
    type V = HttpResponseView;

    open spec fn view(&self) -> HttpResponseView {
        HttpResponseView { status: self.status, headers: self.headers@, body: self.body@ }
    }
}

impl HttpResponseView {
    /// The value of a header, whatever the case of the name asked for.
    pub open spec fn header_value(self, name: Seq<char>) -> Option<Seq<char>> {
        fields::lookup(self.headers, text::ascii_lower(name))
    }

    pub open spec fn succeeded(self) -> bool {
        200 <= self.status < 300
    }
}

impl HttpResponse {
    /// Case-insensitive header lookup.
    pub fn header(&self, name: &str) -> (r: Option<&str>)
        ensures
            text::str_opt(r) == self@.header_value(name@),
    {
        self.headers.get(&to_ascii_lowercase(name))
    }

    /// True for a 2xx status.
    pub fn is_success(&self) -> (r: bool)
        ensures
            r == self@.succeeded(),
    {
        200 <= self.status && self.status < 300
    }
}

/// Options for a single probe.
#[derive(Debug, Clone)]
pub struct HttpProbeRequest<'a> {
    pub host: &'a str,
    pub port: u16,
    pub path: &'a str,
    pub method: &'a str,
    /// Extra request headers as `(name, value)`.
    pub headers: Vec<(String, String)>,
    /// `user:password` for HTTP Basic auth.
    pub basic_auth: Option<&'a str>,
    /// Overall deadline covering connect, write, and the full body read, in milliseconds.
    pub timeout_ms: u64,
}

/// What an [`HttpProbeRequest`] holds.
#[verifier::ext_equal]
pub struct HttpProbeRequestView {
    pub host: Seq<char>,
    pub port: u16,
    pub path: Seq<char>,
    pub method: Seq<char>,
    pub headers: Seq<(Seq<char>, Seq<char>)>,
    pub basic_auth: Option<Seq<char>>,
    pub timeout_ms: u64,
}

impl<'a> View for HttpProbeRequest<'a> {
    type V = HttpProbeRequestView;

    open spec fn view(&self) -> HttpProbeRequestView {
        HttpProbeRequestView {
            host: self.host@,
            port: self.port,
            path: self.path@,
            method: self.method@,
            headers: Seq::new(
                self.headers@.len(),
                |i: int| (self.headers@[i].0@, self.headers@[i].1@),
            ),
            basic_auth: text::str_opt(self.basic_auth),
            timeout_ms: self.timeout_ms,
        }
    }
}

impl<'a> HttpProbeRequest<'a> {
    /// A GET request.
    pub fn get(host: &'a str, port: u16, path: &'a str, timeout_ms: u64) -> (r: HttpProbeRequest<'a>)
        ensures
            r@ == (HttpProbeRequestView {
                host: host@,
                port,
                path: path@,
                method: "GET"@,
                headers: Seq::empty(),
                basic_auth: None,
                timeout_ms,
            }),
    {
        let r = HttpProbeRequest {
            host,
            port,
            path,
            method: "GET",
            headers: Vec::new(),
            basic_auth: None,
            timeout_ms,
        };
        assert(r@.headers =~= Seq::empty());
        r
    }

    pub fn with_header(self, name: &str, value: &str) -> (r: HttpProbeRequest<'a>)
        ensures
            r@ == (HttpProbeRequestView {
                headers: self@.headers.push((name@, value@)),
                ..self@
            }),
    {
        let ghost before = self@;
        let mut r = self;
        r.headers.push((name.to_owned(), value.to_owned()));
        assert(r@.headers =~= before.headers.push((name@, value@)));
        r
    }

    pub fn with_basic_auth(self, credentials: Option<&'a str>) -> (r: HttpProbeRequest<'a>)
        ensures
            r@ == (HttpProbeRequestView { basic_auth: text::str_opt(credentials), ..self@ }),
    {
        let mut r = self;
        r.basic_auth = credentials;
        r
    }

    /// The address to connect to.
    pub fn address(&self) -> (r: String)
        ensures
            r@ == endpoints::host_port(self@.host, self@.port),
    {
        host_port_text(self.host, self.port)
    }

    /// The text of the request. The server is asked to close, so that a body with neither a
    /// length nor chunked framing still ends.
    pub fn request_text(&self) -> (r: String)
        ensures
            r@ == request_of(self@),
    {
        let mut text = self.method.to_owned().concat(" ").concat(self.path).concat(
            " HTTP/1.1\r\n",
        ).concat("Host: ").concat(host_port_text(self.host, self.port).as_str()).concat(
            "\r\n",
        ).concat("User-Agent: mdoctor\r\n").concat("Accept: */*\r\n").concat(
            "Connection: close\r\n",
        );
        let ghost opening = text@;
        if let Some(creds) = self.basic_auth {
            text = text.concat("Authorization: Basic ").concat(
                base64_encode(creds.as_bytes()).as_str(),
            ).concat("\r\n");
        } else {
            assert(opening + Seq::empty() =~= opening);
        }
        let ghost authorised = text@;
        let ghost all = self@.headers;
        let mut i: usize = 0;
        assert(authorised + Seq::empty() =~= authorised);
        while i < self.headers.len()
            invariant
                i <= self.headers@.len(),
                all == self@.headers,
                text@ == authorised + header_lines(all.take(i as int)),
            decreases self.headers@.len() - i,
        {
            let name = &self.headers[i].0;
            let value = &self.headers[i].1;
            let ghost before = text@;
            text = text.concat(name.as_str()).concat(": ").concat(value.as_str()).concat("\r\n");
            proof {
                assert(all.take(i + 1).drop_last() =~= all.take(i as int));
                assert(all.take(i + 1).last() == (name@, value@));
                assert(text@ =~= authorised + header_lines(all.take(i + 1)));
            }
            i += 1;
        }
        assert(all.take(i as int) =~= all);
        text.concat("\r\n")
    }
}

/// One line for each extra header.
pub open spec fn header_lines(headers: Seq<(Seq<char>, Seq<char>)>) -> Seq<char>
    decreases headers.len(),
{
    if headers.len() == 0 {
        Seq::empty()
    } else {
        header_lines(headers.drop_last()) + headers.last().0 + ": "@ + headers.last().1 + "\r\n"@
    }
}

/// The text of a request.
pub open spec fn request_of(req: HttpProbeRequestView) -> Seq<char> {
    req.method + " "@ + req.path + " HTTP/1.1\r\n"@ + "Host: "@ + endpoints::host_port(req.host, req.port)
        + "\r\n"@ + "User-Agent: mdoctor\r\n"@ + "Accept: */*\r\n"@ + "Connection: close\r\n"@ + (
    match req.basic_auth {
        Some(creds) => "Authorization: Basic "@ + base64::base64(vstd::utf8::encode_utf8(creds)) + "\r\n"@,
        None => Seq::empty(),
    }) + header_lines(req.headers) + "\r\n"@
}

/// The bytes of a line end.
pub open spec fn crlf() -> Seq<u8> {
    seq![13u8, 10u8]
}

/// The bytes between head and body.
pub open spec fn blank_line() -> Seq<u8> {
    seq![13u8, 10u8, 13u8, 10u8]
}

/// The position just past the blank line.
pub open spec fn head_end(raw: Seq<u8>) -> Option<int> {
    match bytes::bytes_find(raw, blank_line(), 0) {
        Some(i) => Some(i + 4),
        None => None,
    }
}

/// Splits headers from body, returning the byte offset just past the blank line.
pub fn header_end(raw: &[u8]) -> (r: Option<usize>)
    ensures
        r matches Some(n) ==> head_end(raw@) == Some(n as int) && 4 <= n <= raw@.len(),
        r is None ==> head_end(raw@) is None,
{
    let n: usize = raw.len();
    let p: [u8; 4] = [13, 10, 13, 10];
    assert(p@ =~= blank_line());
    assert(n == raw@.len());
    match find_bytes(raw, &p) {
        Some(i) => Some(i + 4),
        None => None,
    }
}

/// The headers of a response head: the fields of the lines after the first.
pub open spec fn headers_of(head: Seq<char>) -> Map<Seq<char>, Seq<char>> {
    let lines = text::lines_of(head);
    if lines.len() == 0 {
        Map::empty()
    } else {
        fields::fields_of(lines.skip(1))
    }
}

/// Parses header lines out of a response head, names in lower case.
pub fn parse_headers(head: &str) -> (r: FieldMap)
    ensures
        r@ == headers_of(head@),
{
    let all = lines(head);
    assert(text::texts(all@).len() == all@.len());
    if all.len() == 0 {
        FieldMap::new()
    } else {
        read_fields(&all, 1)
    }
}

/// Whether the headers announce a chunked body.
pub open spec fn is_chunked(headers: Map<Seq<char>, Seq<char>>) -> bool {
    match fields::lookup(headers, "transfer-encoding"@) {
        Some(v) => text::contains_text(text::ascii_lower(v), "chunked"@),
        None => false,
    }
}

fn announces_chunks(headers: &FieldMap) -> (r: bool)
    ensures
        r == is_chunked(headers@),
{
    match headers.get("transfer-encoding") {
        Some(v) => contains(&to_ascii_lowercase(v), "chunked"),
        None => false,
    }
}

/// The length of the body that the headers announce.
pub open spec fn content_length(headers: Map<Seq<char>, Seq<char>>) -> Option<usize> {
    match fields::lookup(headers, "content-length"@) {
        Some(v) => number::parsed_usize(text::trimmed(v), 10),
        None => None,
    }
}

/// Whether a body in chunked framing is complete: chunk by chunk, a size line of zero is
/// reached, and behind it the blank line that closes the trailer fields, of which there are
/// mostly none. What looks like an end inside of a chunk does not count.
pub open spec fn chunks_are_complete(raw: Seq<u8>) -> bool
    decreases raw.len(),
{
    match bytes::bytes_find(raw, crlf(), 0) {
        Some(i) => match chunk_size(bytes::text_in(raw.take(i))) {
            Some(size) => {
                let next = i + 2 + size + 2;
                if size == 0 {
                    bytes::bytes_find(raw.skip(i), blank_line(), 0) is Some
                } else {
                    0 < next <= raw.len() && chunks_are_complete(raw.skip(next))
                }
            },
            None => false,
        },
        None => false,
    }
}

/// True once the zero chunk of a chunked body is there.
pub fn has_last_chunk(raw: &[u8]) -> (r: bool)
    ensures
        r == chunks_are_complete(raw@),
{
    let n: usize = raw.len();
    let p: [u8; 2] = [13, 10];
    let blank: [u8; 4] = [13, 10, 13, 10];
    assert(p@ =~= crlf());
    assert(blank@ =~= blank_line());
    let mut pos: usize = 0;
    assert(raw@.skip(0) =~= raw@);
    loop
        invariant
            pos <= n == raw@.len(),
            p@ == crlf(),
            blank@ == blank_line(),
            chunks_are_complete(raw@.skip(pos as int)) == chunks_are_complete(raw@),
        decreases n - pos,
    {
        let rest = slice_subrange(raw, pos, n);
        assert(rest@ =~= raw@.skip(pos as int));
        let line_end: usize = match find_bytes(rest, &p) {
            Some(i) => i,
            None => {
                return false;
            },
        };
        let line = slice_subrange(rest, 0, line_end);
        assert(line@ =~= rest@.take(line_end as int));
        let size: usize = match read_chunk_size(&lossy_text(line)) {
            Some(s) => s,
            None => {
                return false;
            },
        };
        if size == 0 {
            let tail = slice_subrange(rest, line_end, rest.len());
            assert(tail@ =~= rest@.skip(line_end as int));
            return find_bytes(tail, &blank).is_some();
        }
        let left: usize = rest.len() - line_end - 2;
        if left < 2 || left - 2 < size {
            return false;
        }
        let next: usize = line_end + 2 + size + 2;
        assert(rest@.skip(next as int) =~= raw@.skip(pos + next));
        pos = pos + next;
    }
}

/// Whether the headers announce where a body ends.
pub open spec fn is_framed(headers: Map<Seq<char>, Seq<char>>) -> bool {
    is_chunked(headers) || content_length(headers) is Some
}

/// Whether a body is complete, by what the headers say of its framing.
pub open spec fn body_is_complete(headers: Map<Seq<char>, Seq<char>>, body: Seq<u8>) -> bool {
    if is_chunked(headers) {
        chunks_are_complete(body)
    } else {
        match content_length(headers) {
            Some(n) => body.len() >= n,
            None => false,
        }
    }
}

/// True once a body is complete by its own framing.
pub fn framing_is_met(headers: &FieldMap, body: &[u8]) -> (r: bool)
    ensures
        r == body_is_complete(headers@, body@),
{
    if announces_chunks(headers) {
        return has_last_chunk(body);
    }
    match headers.get("content-length") {
        Some(v) => match parse_usize(&trim(v), 10) {
            Some(n) => body.len() >= n,
            None => false,
        },
        None => false,
    }
}

/// Whether the bytes read so far are a complete response.
pub open spec fn is_complete(raw: Seq<u8>) -> bool {
    match head_end(raw) {
        Some(n) => body_is_complete(headers_of(bytes::text_in(raw.take(n))), raw.skip(n)),
        None => false,
    }
}

/// True once the buffered bytes contain a complete response per its own framing.
pub fn response_is_complete(raw: &[u8]) -> (r: bool)
    ensures
        r == is_complete(raw@),
{
    match header_end(raw) {
        Some(n) => {
            let head = slice_subrange(raw, 0, n);
            let body = slice_subrange(raw, n, raw.len());
            assert(head@ =~= raw@.take(n as int));
            assert(body@ =~= raw@.skip(n as int));
            framing_is_met(&parse_headers(&lossy_text(head)), body)
        },
        None => false,
    }
}

/// Whether the bytes read so far stop short of the end that their head announces.
pub open spec fn is_cut_short(raw: Seq<u8>) -> bool {
    match head_end(raw) {
        Some(n) => {
            let headers = headers_of(bytes::text_in(raw.take(n)));
            is_framed(headers) && !body_is_complete(headers, raw.skip(n))
        },
        None => false,
    }
}

/// True while the buffered bytes stop short of the end that their head announces.
pub fn response_is_cut_short(raw: &[u8]) -> (r: bool)
    ensures
        r == is_cut_short(raw@),
{
    match header_end(raw) {
        Some(n) => {
            let head = slice_subrange(raw, 0, n);
            let body = slice_subrange(raw, n, raw.len());
            assert(head@ =~= raw@.take(n as int));
            assert(body@ =~= raw@.skip(n as int));
            let headers = parse_headers(&lossy_text(head));
            let framed = announces_chunks(&headers) || match headers.get("content-length") {
                Some(v) => parse_usize(&trim(v), 10).is_some(),
                None => false,
            };
            framed && !framing_is_met(&headers, body)
        },
        None => false,
    }
}

/// The status code in the first line of a response head.
pub open spec fn status_of(head: Seq<char>) -> Option<u16> {
    let lines = text::lines_of(head);
    if lines.len() == 0 || text::words_of(lines[0]).len() < 2 {
        None
    } else {
        number::parsed_u16(text::words_of(lines[0])[1])
    }
}

/// Reads the status code out of a response head.
pub fn read_status(head: &str) -> (r: Option<u16>)
    ensures
        r == status_of(head@),
{
    let all = lines(head);
    assert(text::texts(all@).len() == all@.len());
    if all.len() == 0 {
        return None;
    }
    assert(text::texts(all@)[0] == all@[0]@);
    let words = split_whitespace(&all[0]);
    assert(text::texts(words@).len() == words@.len());
    if words.len() < 2 {
        return None;
    }
    assert(text::texts(words@)[1] == words@[1]@);
    parse_u16(&words[1])
}

/// The size that a chunk-size line gives, without its extensions.
pub open spec fn chunk_size(line: Seq<char>) -> Option<usize> {
    number::parsed_usize(text::trimmed(text::first_piece(line, CharSet::One(';'))), 16)
}

/// Reads a chunk-size line, which may carry extensions after a semicolon.
pub fn read_chunk_size(line: &str) -> (r: Option<usize>)
    ensures
        r == chunk_size(line@),
{
    parse_usize(&trim(&before_any(line, CharSet::One(';'))), 16)
}

/// The bytes that a chunked body carries, up to its zero chunk or to what cannot be read.
pub open spec fn unchunked(raw: Seq<u8>) -> Seq<u8>
    decreases raw.len(),
{
    match bytes::bytes_find(raw, crlf(), 0) {
        Some(i) => match chunk_size(bytes::text_in(raw.take(i))) {
            Some(size) => {
                let start = i + 2;
                let end = if start + size <= raw.len() {
                    start + size
                } else {
                    raw.len() as int
                };
                let next = if end + 2 <= raw.len() {
                    end + 2
                } else {
                    raw.len() as int
                };
                if size == 0 || !(0 <= start <= end <= next <= raw.len() && next > 0) {
                    Seq::empty()
                } else {
                    raw.subrange(start, end) + unchunked(raw.skip(next))
                }
            },
            None => Seq::empty(),
        },
        None => Seq::empty(),
    }
}

/// Takes a chunked body apart, stopping at the terminating zero chunk.
///
/// OpenSearch and Nginx both use chunked framing for some status endpoints, so a naive
/// reader would hand JSON parsing a body still carrying chunk-size lines.
pub fn decode_chunks(raw: &[u8]) -> (r: Vec<u8>)
    ensures
        r@ == unchunked(raw@),
{
    let n: usize = raw.len();
    let p: [u8; 2] = [13, 10];
    assert(p@ =~= crlf());
    let mut out: Vec<u8> = Vec::new();
    let mut pos: usize = 0;
    assert(raw@.skip(0) =~= raw@);
    assert(out@ + unchunked(raw@) =~= unchunked(raw@));
    loop
        invariant
            pos <= n == raw@.len(),
            p@ == crlf(),
            out@ + unchunked(raw@.skip(pos as int)) == unchunked(raw@),
        decreases n - pos,
    {
        let rest = slice_subrange(raw, pos, n);
        assert(rest@ =~= raw@.skip(pos as int));
        let line_end: usize = match find_bytes(rest, &p) {
            Some(i) => i,
            None => {
                assert(out@ + Seq::empty() =~= out@);
                return out;
            },
        };
        let line = slice_subrange(rest, 0, line_end);
        assert(line@ =~= rest@.take(line_end as int));
        proof {
            bytes::lemma_bytes_find(rest@, crlf(), 0);
        }
        let size: usize = match read_chunk_size(&lossy_text(line)) {
            Some(s) => s,
            None => {
                assert(out@ + Seq::empty() =~= out@);
                return out;
            },
        };
        if size == 0 {
            assert(out@ + Seq::empty() =~= out@);
            return out;
        }
        let start: usize = line_end + 2;
        let end: usize = if size <= rest.len() - start {
            start + size
        } else {
            rest.len()
        };
        let next: usize = if rest.len() - end >= 2 {
            end + 2
        } else {
            rest.len()
        };
        let chunk = slice_subrange(rest, start, end);
        let ghost before = out@;
        append_slice(&mut out, chunk);
        proof {
            assert(rest@.skip(next as int) =~= raw@.skip(pos + next));
            assert(before + (rest@.subrange(start as int, end as int) + unchunked(
                rest@.skip(next as int),
            )) =~= (before + rest@.subrange(start as int, end as int)) + unchunked(
                raw@.skip(pos + next),
            ));
        }
        pos = pos + next;
    }
}

pub fn append_slice(out: &mut Vec<u8>, chunk: &[u8])
    ensures
        final(out)@ == old(out)@ + chunk@,
{
    let ghost start = out@;
    let mut i: usize = 0;
    assert(start + chunk@.take(0) =~= start);
    while i < chunk.len()
        invariant
            i <= chunk@.len(),
            out@ == start + chunk@.take(i as int),
        decreases chunk@.len() - i,
    {
        out.push(chunk[i]);
        assert(start + chunk@.take(i + 1) =~= (start + chunk@.take(i as int)).push(
            chunk@[i as int],
        ));
        i += 1;
    }
    assert(chunk@.take(i as int) =~= chunk@);
}

/// Decodes a chunked body to text.
pub fn decode_chunked(raw: &[u8]) -> (r: String)
    ensures
        r@ == bytes::text_in(unchunked(raw@)),
{
    let bytes = decode_chunks(raw);
    lossy_text(bytes.as_slice())
}

/// What reading a response gives, as texts.
pub open spec fn response_result(r: Result<HttpResponse, HttpProbeError>) -> Result<
    HttpResponseView,
    HttpProbeErrorView,
> {
    match r {
        Ok(v) => Ok(v@),
        Err(e) => Err(e@),
    }
}

/// How a response is read: its head has to end and to hold a status code.
pub open spec fn response_of(raw: Seq<u8>) -> Result<HttpResponseView, HttpProbeErrorView> {
    if raw.len() == 0 {
        Err(HttpProbeErrorView::Incomplete)
    } else {
        match head_end(raw) {
            None => Err(HttpProbeErrorView::Malformed),
            Some(n) => {
                let head = bytes::text_in(raw.take(n));
                let headers = headers_of(head);
                match status_of(head) {
                    None => Err(HttpProbeErrorView::Malformed),
                    Some(status) => Ok(
                        HttpResponseView {
                            status,
                            headers,
                            body: if is_chunked(headers) {
                                bytes::text_in(unchunked(raw.skip(n)))
                            } else {
                                bytes::text_in(raw.skip(n))
                            },
                        },
                    ),
                }
            },
        }
    }
}

/// Reads a response out of the bytes that came back.
pub fn parse_response(raw: &[u8]) -> (r: Result<HttpResponse, HttpProbeError>)
    ensures
        response_result(r) == response_of(raw@),
{
    if raw.len() == 0 {
        return Err(HttpProbeError::Incomplete);
    }
    let n: usize = match header_end(raw) {
        Some(n) => n,
        None => {
            return Err(HttpProbeError::Malformed);
        },
    };
    let head_bytes = slice_subrange(raw, 0, n);
    let raw_body = slice_subrange(raw, n, raw.len());
    assert(head_bytes@ =~= raw@.take(n as int));
    assert(raw_body@ =~= raw@.skip(n as int));
    let head = lossy_text(head_bytes);
    let status: u16 = match read_status(&head) {
        Some(s) => s,
        None => {
            return Err(HttpProbeError::Malformed);
        },
    };
    let headers = parse_headers(&head);
    let body = if announces_chunks(&headers) {
        decode_chunked(raw_body)
    } else {
        lossy_text(raw_body)
    };
    Ok(HttpResponse { status, headers, body })
}

/// What became of one attempt to read from the server.
#[derive(Debug, Clone)]
pub enum ReadEvent {
    /// The server closed the connection.
    Closed,
    Received(Vec<u8>),
    Failed(String),
    /// The overall deadline passed.
    TimedOut,
}

/// What to do after an attempt to read.
#[derive(Debug, Clone)]
pub enum ReadStep {
    /// Read on.
    More,
    /// Parse what was read.
    Done,
    Fail(HttpProbeError),
}

/// What a [`ReadStep`] says.
pub enum ReadStepView {
    More,
    Done,
    Fail(HttpProbeErrorView),
}

impl View for ReadStep {
    type V = ReadStepView;

    open spec fn view(&self) -> ReadStepView {
        match self {
            ReadStep::More => ReadStepView::More,
            ReadStep::Done => ReadStepView::Done,
            ReadStep::Fail(e) => ReadStepView::Fail(e@),
        }
    }
}

/// The bytes read, after an attempt.
pub open spec fn bytes_after(raw: Seq<u8>, event: ReadEvent) -> Seq<u8> {
    match event {
        ReadEvent::Received(chunk) => raw + chunk@,
        _ => raw,
    }
}

/// What to do after an attempt, with the bytes read by then. Reading stops as soon as the
/// framing says that the body is complete, and a deadline that passes with a complete
/// response already there is still a success. A server that closes ends a body without
/// framing; one that closes before the announced end leaves the response incomplete.
pub open spec fn step_after(raw: Seq<u8>, event: ReadEvent, timeout_ms: u64) -> ReadStepView {
    match event {
        ReadEvent::Closed => if is_cut_short(raw) {
            ReadStepView::Fail(HttpProbeErrorView::Incomplete)
        } else {
            ReadStepView::Done
        },
        ReadEvent::Received(_) => if raw.len() > MAX_BODY_BYTES || is_complete(raw) {
            ReadStepView::Done
        } else {
            ReadStepView::More
        },
        ReadEvent::Failed(reason) => ReadStepView::Fail(HttpProbeErrorView::Io(reason@)),
        ReadEvent::TimedOut => if is_complete(raw) {
            ReadStepView::Done
        } else {
            ReadStepView::Fail(HttpProbeErrorView::Timeout(timeout_ms))
        },
    }
}

/// Decides how a probe goes on after an attempt to read.
pub fn after_read(raw: &mut Vec<u8>, event: &ReadEvent, timeout_ms: u64) -> (r: ReadStep)
    ensures
        final(raw)@ == bytes_after(old(raw)@, *event),
        r@ == step_after(final(raw)@, *event, timeout_ms),
{
    match event {
        ReadEvent::Closed => if response_is_cut_short(raw.as_slice()) {
            ReadStep::Fail(HttpProbeError::Incomplete)
        } else {
            ReadStep::Done
        },
        ReadEvent::Received(chunk) => {
            append_slice(raw, chunk.as_slice());
            if raw.len() > MAX_BODY_BYTES || response_is_complete(raw.as_slice()) {
                ReadStep::Done
            } else {
                ReadStep::More
            }
        },
        ReadEvent::Failed(reason) => ReadStep::Fail(HttpProbeError::Io(reason.clone())),
        ReadEvent::TimedOut => if response_is_complete(raw.as_slice()) {
            ReadStep::Done
        } else {
            ReadStep::Fail(HttpProbeError::Timeout(timeout_ms))
        },
    }
}

/// A first occurrence stays the first when bytes are added.
proof fn lemma_find_stays(s: Seq<u8>, p: Seq<u8>, more: Seq<u8>)
    requires
        bytes::bytes_find(s, p, 0) is Some,
    ensures
        bytes::bytes_find(s + more, p, 0) == bytes::bytes_find(s, p, 0),
{
    let all = s + more;
    bytes::lemma_bytes_find(s, p, 0);
    bytes::lemma_bytes_find(all, p, 0);
    let i = bytes::bytes_find(s, p, 0)->0;
    assert(all.subrange(i, i + p.len()) =~= s.subrange(i, i + p.len()));
    assert(bytes::bytes_at(all, p, i));
    let j = bytes::bytes_find(all, p, 0)->0;
    assert(j <= i);
    if j < i {
        assert(all.subrange(j, j + p.len()) =~= s.subrange(j, j + p.len()));
        assert(bytes::bytes_at(s, p, j));
    }
}

/// A chunked body that is complete stays complete when bytes are added.
proof fn lemma_chunks_stay(raw: Seq<u8>, more: Seq<u8>)
    requires
        chunks_are_complete(raw),
    ensures
        chunks_are_complete(raw + more),
    decreases raw.len(),
{
    lemma_find_stays(raw, crlf(), more);
    bytes::lemma_bytes_find(raw, crlf(), 0);
    let i = bytes::bytes_find(raw, crlf(), 0)->0;
    assert((raw + more).take(i) =~= raw.take(i));
    let size = chunk_size(bytes::text_in(raw.take(i)))->0;
    if size == 0 {
        lemma_find_stays(raw.skip(i), blank_line(), more);
        assert((raw + more).skip(i) =~= raw.skip(i) + more);
    } else {
        let next = i + 2 + size + 2;
        lemma_chunks_stay(raw.skip(next), more);
        assert((raw + more).skip(next) =~= raw.skip(next) + more);
    }
}

/// A response that is complete stays complete when further bytes come in, so reading may
/// stop at the first moment that it is.
pub proof fn law_completeness_is_stable(raw: Seq<u8>, more: Seq<u8>)
    requires
        is_complete(raw),
    ensures
        is_complete(raw + more),
{
    lemma_find_stays(raw, blank_line(), more);
    bytes::lemma_bytes_find(raw, blank_line(), 0);
    let n = head_end(raw)->0;
    assert((raw + more).take(n) =~= raw.take(n));
    assert((raw + more).skip(n) =~= raw.skip(n) + more);
    let headers = headers_of(bytes::text_in(raw.take(n)));
    if is_chunked(headers) {
        lemma_chunks_stay(raw.skip(n), more);
    }
}

/// A response is handed on only whole: below the ceiling on its size, its framing is met or,
/// where the head announces none, the server closed.
pub proof fn law_no_truncated_response_is_read(raw: Seq<u8>, event: ReadEvent, timeout_ms: u64)
    requires
        raw.len() <= MAX_BODY_BYTES,
        step_after(raw, event, timeout_ms) is Done,
        response_of(raw) is Ok,
    ensures
        is_complete(raw) || (event is Closed && !is_framed(response_of(raw)->Ok_0.headers)),
{
}

/// The text of a response whose body is not chunked comes back as it was sent: the head
/// gives status and headers, and the body is the text after it.
pub proof fn law_plain_response_reads_back(head: Seq<char>, body: Seq<char>)
    requires
        head_end(vstd::utf8::encode_utf8(head)) == Some(
            vstd::utf8::encode_utf8(head).len() as int,
        ),
        status_of(head) is Some,
        !is_chunked(headers_of(head)),
    ensures
        response_of(vstd::utf8::encode_utf8(head) + vstd::utf8::encode_utf8(body)) == Ok::<
            HttpResponseView,
            HttpProbeErrorView,
        >(
            HttpResponseView {
                status: status_of(head)->0,
                headers: headers_of(head),
                body,
            },
        ),
{
    let h = vstd::utf8::encode_utf8(head);
    let b = vstd::utf8::encode_utf8(body);
    lemma_find_stays(h, blank_line(), b);
    bytes::lemma_bytes_find(h, blank_line(), 0);
    let n = h.len() as int;
    assert((h + b).take(n) =~= h);
    assert((h + b).skip(n) =~= b);
    vstd::utf8::encode_utf8_valid_utf8(head);
    vstd::utf8::encode_utf8_decode_utf8(head);
    vstd::utf8::encode_utf8_valid_utf8(body);
    vstd::utf8::encode_utf8_decode_utf8(body);
}

/// Header names are looked up whatever the case of their letters.
pub proof fn law_header_lookup_ignores_case(r: HttpResponseView, a: Seq<char>, b: Seq<char>)
    requires
        text::ascii_lower(a) == text::ascii_lower(b),
    ensures
        r.header_value(a) == r.header_value(b),
{
}

/// A number in hexadecimal, with letters in upper or lower case.
pub open spec fn hex_text(n: nat, upper: bool) -> Seq<char>
    decreases n,
{
    let digit = if n % 16 < 10 {
        ((48 + n % 16) as u32) as char
    } else if upper {
        ((65 + n % 16 - 10) as u32) as char
    } else {
        ((97 + n % 16 - 10) as u32) as char
    };
    if n < 16 {
        seq![digit]
    } else {
        hex_text(n / 16, upper).push(digit)
    }
}

/// Every size can be written in hexadecimal, in either case, and reads back.
pub proof fn law_hex_reads_back(n: nat, upper: bool)
    ensures
        number::digits_value(hex_text(n, upper), 16) == Some(n),
    decreases n,
{
    if n >= 16 {
        law_hex_reads_back(n / 16, upper);
        assert(hex_text(n, upper).drop_last() =~= hex_text(n / 16, upper));
    }
}

/// Hexadecimal digits are ASCII and neither white space nor punctuation.
proof fn lemma_digits(size: Seq<char>)
    requires
        number::digits_value(size, 16) is Some,
    ensures
        size.len() > 0,
        forall|i: int| 0 <= i < size.len() ==> number::digit_value(#[trigger] size[i], 16) is Some,
    decreases size.len(),
{
    if size.len() > 1 {
        lemma_digits(size.drop_last());
        assert forall|i: int| 0 <= i < size.len() implies number::digit_value(
            #[trigger] size[i],
            16,
        ) is Some by {
            if i < size.len() - 1 {
                assert(size.drop_last()[i] == size[i]);
            }
        }
    }
}

/// One chunk of a body: how its size is written, the extensions behind it, and its bytes.
pub struct Chunk {
    pub size: Seq<char>,
    pub extensions: Seq<char>,
    pub data: Seq<u8>,
}

impl Chunk {
    /// The size is that of the data, in hexadecimal of either case; the extensions start with
    /// a semicolon and do not end the line.
    pub open spec fn is_valid(self) -> bool {
        &&& number::digits_value(self.size, 16) == Some(self.data.len())
        &&& self.data.len() <= usize::MAX
        &&& self.extensions.len() > 0 ==> self.extensions[0] == ';'
        &&& bytes::bytes_find(vstd::utf8::encode_utf8(self.extensions), crlf(), 0) is None
    }

    /// The bytes of its size line, with the line end.
    pub open spec fn size_line(self) -> Seq<u8> {
        vstd::utf8::encode_utf8(self.size) + vstd::utf8::encode_utf8(self.extensions) + crlf()
    }
}

/// A chunk with data.
pub open spec fn is_data_chunk(c: Chunk) -> bool {
    c.is_valid() && c.data.len() > 0
}

/// Chunks in chunked framing: each behind its size line.
pub open spec fn chunked(chunks: Seq<Chunk>) -> Seq<u8>
    decreases chunks.len(),
{
    if chunks.len() == 0 {
        Seq::empty()
    } else {
        chunks[0].size_line() + chunks[0].data + crlf() + chunked(chunks.drop_first())
    }
}

/// The bytes of all chunks.
pub open spec fn all_bytes(chunks: Seq<Chunk>) -> Seq<u8>
    decreases chunks.len(),
{
    if chunks.len() == 0 {
        Seq::empty()
    } else {
        chunks[0].data + all_bytes(chunks.drop_first())
    }
}

/// What a size line is read as, and where it ends.
proof fn lemma_size_line(c: Chunk, rest: Seq<u8>)
    requires
        c.is_valid(),
    ensures
        ({
            let raw = c.size_line() + rest;
            let k = c.size_line().len() - 2;
            &&& bytes::bytes_find(raw, crlf(), 0) == Some(k)
            &&& chunk_size(bytes::text_in(raw.take(k))) == Some(c.data.len() as usize)
        }),
{
    let size = c.size;
    let digits = vstd::utf8::encode_utf8(size);
    let more = vstd::utf8::encode_utf8(c.extensions);
    let raw = c.size_line() + rest;
    let k = c.size_line().len() - 2;
    lemma_digits(size);
    assert(vstd::utf8::is_ascii_chars(size)) by {
        assert forall|i: int| 0 <= i < size.len() implies #[trigger] size[i] as u32 <= 127 by {
            assert(number::digit_value(size[i], 16) is Some);
        }
    }
    vstd::utf8::is_ascii_chars_encode_utf8(size);
    assert(raw.subrange(k, k + 2) =~= crlf());
    bytes::lemma_bytes_find(more, crlf(), 0);
    assert forall|j: int| 0 <= j < k implies !bytes::bytes_at(raw, crlf(), j) by {
        if bytes::bytes_at(raw, crlf(), j) {
            assert(raw.subrange(j, j + 2)[0] == raw[j]);
            assert(raw.subrange(j, j + 2)[1] == raw[j + 1]);
            if j < digits.len() {
                assert(size[j] as u8 == digits[j]);
                assert(number::digit_value(size[j], 16) is Some);
            } else if j + 1 < k {
                assert(more.subrange(j - digits.len(), j - digits.len() + 2) =~= crlf());
                assert(bytes::bytes_at(more, crlf(), j - digits.len()));
            }
        }
    }
    bytes::lemma_bytes_found_at(raw, crlf(), k);
    let line = size + c.extensions;
    bytes::lemma_encode_concat(size, c.extensions);
    assert(raw.take(k) =~= vstd::utf8::encode_utf8(line));
    vstd::utf8::encode_utf8_valid_utf8(line);
    vstd::utf8::encode_utf8_decode_utf8(line);
    text::lemma_next_member(line, CharSet::One(';'), 0);
    assert(text::first_piece(line, CharSet::One(';')) =~= size) by {
        let m = text::next_member(line, CharSet::One(';'), 0);
        if m < size.len() {
            assert(number::digit_value(size[m], 16) is Some);
        } else if m > size.len() {
            assert(line[size.len() as int] == c.extensions[0]);
        }
    }
    assert(number::digit_value(size[0], 16) is Some);
    assert(number::digit_value(size[size.len() - 1], 16) is Some);
    text::lemma_trimmed_id(size);
}

/// A chunked body carries exactly the bytes of its chunks, however they were cut and their
/// sizes written, and what comes after the zero chunk does not count. It is complete once
/// the blank line behind the zero chunk is there.
pub proof fn law_chunked_body_reads_back(chunks: Seq<Chunk>, last: Chunk, after: Seq<u8>)
    requires
        forall|i: int| 0 <= i < chunks.len() ==> is_data_chunk(#[trigger] chunks[i]),
        last.is_valid(),
        last.data.len() == 0,
    ensures
        unchunked(chunked(chunks) + last.size_line() + after) == all_bytes(chunks),
        chunks_are_complete(chunked(chunks) + last.size_line() + after)
            == (bytes::bytes_find(crlf() + after, blank_line(), 0) is Some),
    decreases chunks.len(),
{
    let raw = chunked(chunks) + last.size_line() + after;
    if chunks.len() == 0 {
        assert(raw =~= last.size_line() + after);
        lemma_size_line(last, after);
        assert(raw.skip(last.size_line().len() - 2) =~= crlf() + after);
    } else {
        let c = chunks[0];
        let tail = chunks.drop_first();
        let rest = chunked(tail) + last.size_line() + after;
        assert(is_data_chunk(c));
        assert forall|i: int| 0 <= i < tail.len() implies is_data_chunk(#[trigger] tail[i]) by {
            assert(tail[i] == chunks[i + 1]);
        }
        law_chunked_body_reads_back(tail, last, after);
        assert(raw =~= c.size_line() + (c.data + crlf() + rest));
        lemma_size_line(c, c.data + crlf() + rest);
        let start: int = c.size_line().len() as int;
        let end: int = start + c.data.len();
        assert(raw.subrange(start, end) =~= c.data);
        assert(raw.skip(end + 2) =~= rest);
    }
}

/// A response is a success exactly with a status from 200 to 299.
pub proof fn law_success_is_2xx(r: HttpResponse)
    ensures
        r@.succeeded() <==> r.status / 100 == 2,
{
}

/// A request opens with its method, path and host, asks for the connection to be closed, and
/// ends in a blank line.
pub proof fn law_request_opens(req: HttpProbeRequestView)
    ensures
        ({
            let opening = req.method + " "@ + req.path + " HTTP/1.1\r\n"@ + "Host: "@
                + endpoints::host_port(req.host, req.port) + "\r\n"@
                + "User-Agent: mdoctor\r\n"@ + "Accept: */*\r\n"@ + "Connection: close\r\n"@;
            let text = request_of(req);
            &&& text::has_prefix(text, opening)
            &&& req.basic_auth is None && req.headers.len() == 0 ==> text == opening + "\r\n"@
        }),
{
    let opening = req.method + " "@ + req.path + " HTTP/1.1\r\n"@ + "Host: "@
        + endpoints::host_port(req.host, req.port) + "\r\n"@ + "User-Agent: mdoctor\r\n"@
        + "Accept: */*\r\n"@ + "Connection: close\r\n"@;
    let text = request_of(req);
    assert(text.subrange(0, opening.len() as int) =~= opening);
    if req.basic_auth is None && req.headers.len() == 0 {
        assert(text =~= opening + "\r\n"@);
    }
}

/// Credentials add one line, in base64, and no other change.
pub proof fn law_credentials_add_a_line(req: HttpProbeRequestView, creds: Seq<char>)
    requires
        req.basic_auth is None,
        req.headers.len() == 0,
    ensures
        request_of(HttpProbeRequestView { basic_auth: Some(creds), ..req }) == request_of(
            req,
        ).drop_last().drop_last() + "Authorization: Basic "@ + base64::base64(
            vstd::utf8::encode_utf8(creds),
        ) + "\r\n"@ + "\r\n"@,
{
    reveal_strlit("\r\n");
    let with = request_of(HttpProbeRequestView { basic_auth: Some(creds), ..req });
    let opening = request_of(req).drop_last().drop_last();
    assert(opening + "\r\n"@ =~= request_of(req));
    assert(with =~= opening + "Authorization: Basic "@ + base64::base64(
        vstd::utf8::encode_utf8(creds),
    ) + "\r\n"@ + "\r\n"@);
}

/// A further header adds its own line before the blank one, and no other change.
pub proof fn law_header_adds_a_line(
    req: HttpProbeRequestView,
    name: Seq<char>,
    value: Seq<char>,
)
    ensures
        request_of(HttpProbeRequestView { headers: req.headers.push((name, value)), ..req })
            == request_of(req).drop_last().drop_last() + name + ": "@ + value + "\r\n"@ + "\r\n"@,
{
    reveal_strlit("\r\n");
    assert(req.headers.push((name, value)).drop_last() =~= req.headers);
    let with = request_of(
        HttpProbeRequestView { headers: req.headers.push((name, value)), ..req },
    );
    let opening = request_of(req).drop_last().drop_last();
    assert(opening + "\r\n"@ =~= request_of(req));
    assert(with =~= opening + name + ": "@ + value + "\r\n"@ + "\r\n"@);
}

/// A body is chunked where `Transfer-Encoding` says so, letter case aside; otherwise it is as
/// long as `Content-Length` says, and without either it has no framing.
pub proof fn law_framing(headers: Map<Seq<char>, Seq<char>>, body: Seq<u8>)
    ensures
        ({
            let encoding = "transfer-encoding"@;
            let length = "content-length"@;
            let chunked = headers.dom().contains(encoding) && text::contains_text(
                text::ascii_lower(headers[encoding]),
                "chunked"@,
            );
            let announced = number::parsed_usize(text::trimmed(headers[length]), 10);
            let sized = headers.dom().contains(length) && announced is Some;
            &&& is_chunked(headers) <==> chunked
            &&& is_framed(headers) <==> chunked || sized
            &&& chunked ==> (body_is_complete(headers, body) <==> chunks_are_complete(body))
            &&& !chunked && sized ==> (body_is_complete(headers, body) <==> body.len()
                >= announced->0)
            &&& !chunked && !sized ==> !body_is_complete(headers, body)
        }),
{
}

/// A response is read until it is complete or longer than a mebibyte. The end of the stream
/// fails one that is cut short, and a late read fails one that is not complete.
pub proof fn law_reading_a_response(raw: Seq<u8>, event: ReadEvent, timeout_ms: u64)
    ensures
        ({
            let step = step_after(raw, event, timeout_ms);
            &&& event is Received ==> (step is Done <==> raw.len() > 1_048_576 || is_complete(raw))
            &&& event is Received ==> (step is More <==> raw.len() <= 1_048_576 && !is_complete(
                raw,
            ))
            &&& event is Closed && is_cut_short(raw) ==> step == ReadStepView::Fail(
                HttpProbeErrorView::Incomplete,
            )
            &&& event is Closed && !is_cut_short(raw) ==> step is Done
            &&& event is TimedOut && is_complete(raw) ==> step is Done
            &&& event is TimedOut && !is_complete(raw) ==> step == ReadStepView::Fail(
                HttpProbeErrorView::Timeout(timeout_ms),
            )
            &&& event matches ReadEvent::Failed(reason) ==> step == ReadStepView::Fail(
                HttpProbeErrorView::Io(reason@),
            )
        }),
{
}

/// A response without a byte is incomplete, and one without a blank line or without a status
/// is malformed; every other one is read.
pub proof fn law_readable_responses(raw: Seq<u8>)
    ensures
        ({
            let r = response_of(raw);
            let end = bytes::bytes_find(raw, seq![13u8, 10u8, 13u8, 10u8], 0);
            let head = bytes::text_in(raw.take(end->0 + 4));
            let lines = text::lines_of(head);
            let words = text::words_of(lines[0]);
            let status = number::parsed_u16(words[1]);
            let readable = raw.len() > 0 && end is Some && lines.len() > 0 && words.len() >= 2
                && status is Some;
            &&& raw.len() == 0 ==> r == Err::<HttpResponseView, _>(HttpProbeErrorView::Incomplete)
            &&& raw.len() > 0 && !readable ==> r == Err::<HttpResponseView, _>(
                HttpProbeErrorView::Malformed,
            )
            &&& readable ==> r is Ok && r->Ok_0.status == status->0 && r->Ok_0.headers
                == fields::fields_of(lines.skip(1))
        }),
{
}

/// A time limit is told in milliseconds below a second, and in seconds from there on, with
/// no more decimals than it has.
pub proof fn law_time_limits(s: u64, rest: u64)
    requires
        0 < s,
        1000 * s + 999 <= u64::MAX,
        rest < 1000,
    ensures
        0 < rest ==> span_of(rest) == number::dec(rest as nat) + "ms"@,
        span_of((1000 * s) as u64) == number::dec(s as nat) + "s"@,
        0 < rest < 10 ==> span_of((1000 * s + 100 * rest) as u64) == number::dec(s as nat) + "."@
            + number::dec(rest as nat) + "s"@,
        rest % 10 != 0 ==> span_of((1000 * s + rest) as u64) == number::dec(s as nat) + "."@
            + number::dec((rest / 100) as nat) + number::dec((rest / 10 % 10) as nat) + number::dec(
            (rest % 10) as nat,
        ) + "s"@,
{
}

/// Each error says what went wrong.
pub proof fn law_errors_in_words(addr: Seq<char>, reason: Seq<char>, ms: u64)
    ensures
        (HttpProbeErrorView::Connect { addr, reason }).described() == "connection to "@ + addr
            + " failed: "@ + reason,
        HttpProbeErrorView::Timeout(ms).described() == "timed out after "@ + span_of(ms),
        HttpProbeErrorView::Incomplete.described()
            == "connection closed before a complete response was received"@,
        HttpProbeErrorView::Malformed.described() == "malformed HTTP response"@,
        HttpProbeErrorView::Io(reason).described() == "i/o error: "@ + reason,
{
}

} // verus!
