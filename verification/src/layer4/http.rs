//! Hypertext Transfer Protocol related packet processing.
//!
//! The plaintext request and response grammars are decoded directly
//! from the octets: a literal method keyword or the "HTTP/" prefix, a
//! `<digits>.<digits>` version, and `"<key>: <value>\r\n"` header
//! lines terminated by a blank line.  Whitespace around the method,
//! path and version tokens is tolerated.  Atop TLS, traffic on port
//! 443 is recognized as opaque application data instead.

use vstd::prelude::*;

use crate::layer::DecodeOutcome;
use crate::layer::DecodeOutcomeView;
use crate::layer::InvalidKind;
use crate::layer::Layer;
use crate::layer::LayerView;
use crate::layer::Needed;
use crate::layer::ParserState;
use crate::layer::ParserVariant;
use crate::layer::prior_view;
use crate::memcmp::spec_tag_compare;
use crate::memcmp::tag_compare;
use crate::memcmp::CompareResult;
use vstd::slice::slice_subrange;
use vstd::slice::slice_to_vec;

verus! {

/// The HTTP decoding unit.
#[derive(Debug, Clone, Copy)]
pub struct HttpParser;

/// List of supported HTTP request methods.
#[derive(Debug, Clone, Copy, PartialEq, Eq, Hash, Structural)]
pub enum HttpRequestMethod {
    /// The GET method requests a representation of the specified
    /// resource.
    Get,
    /// The POST method requests that the server accept the entity
    /// enclosed in the request as a new subordinate of the web resource
    /// identified by the URI.
    Post,
    /// The HEAD method asks for a response identical to that of a GET
    /// request, but without the response body.
    Head,
    /// The PUT method requests that the enclosed entity be stored under
    /// the supplied URI.
    Put,
    /// The DELETE method deletes the specified resource.
    Delete,
    /// The TRACE method echoes the received request so that a client can
    /// see what changes or additions have been made by intermediate
    /// servers.
    Trace,
    /// The OPTIONS method returns the HTTP methods that the server
    /// supports for the specified URL.
    Options,
    /// The CONNECT method converts the request connection to a
    /// transparent TCP/IP tunnel.
    Connect,
    /// The PATCH method applies partial modifications to a resource.
    Patch,
}

/// HTTP protocol version.
#[derive(Debug, Clone, Copy, PartialEq, Eq, Structural)]
pub struct HttpVersion {
    /// Major part of the HTTP version
    pub major: u8,
    /// Minor part of the HTTP version
    pub minor: u8,
}

/// A generic HTTP header field, both sides kept as the raw octets that
/// stood on the wire.
#[derive(Debug, PartialEq, Eq)]
pub struct HttpHeader {
    /// A key, like "Host"
    pub key: Vec<u8>,
    /// A value, like "www.domain.com"
    pub value: Vec<u8>,
}

/// A HTTP request representation.
#[derive(Debug, PartialEq, Eq)]
pub struct HttpRequest {
    /// The HTTP request method
    pub request_method: HttpRequestMethod,
    /// The HTTP version
    pub version: HttpVersion,
    /// The octets of the path to be accessed
    pub path: Vec<u8>,
    /// Available HTTP headers
    pub headers: Vec<HttpHeader>,
}

/// A HTTP response representation.
#[derive(Debug, PartialEq, Eq)]
pub struct HttpResponse {
    /// The HTTP version
    pub version: HttpVersion,
    /// The HTTP response status code
    pub code: u16,
    /// The octets of the reason phrase behind the status code
    pub reason: Vec<u8>,
    /// Available HTTP headers
    pub headers: Vec<HttpHeader>,
}

/// Representation of a Hypertext Transfer Protocol packet.
#[derive(Debug, PartialEq, Eq)]
pub enum HttpPacket {
    /// Specifies a HTTP request
    Request(HttpRequest),
    /// Specifies a HTTP response
    Response(HttpResponse),
    /// Could be a plain or encrypted HTTP packet, but there is no
    /// further data parsable
    Any,
}

/// The mathematical value of an `HttpHeader`.
pub struct HttpHeaderView {
    /// Key octets
    pub key: Seq<u8>,
    /// Value octets
    pub value: Seq<u8>,
}

/// The mathematical value of an `HttpRequest`.
pub struct HttpRequestView {
    /// Request method
    pub request_method: HttpRequestMethod,
    /// Protocol version
    pub version: HttpVersion,
    /// Path octets
    pub path: Seq<u8>,
    /// Header fields in order of appearance
    pub headers: Seq<HttpHeaderView>,
}

/// The mathematical value of an `HttpResponse`.
pub struct HttpResponseView {
    /// Protocol version
    pub version: HttpVersion,
    /// Status code
    pub code: u16,
    /// Reason phrase octets
    pub reason: Seq<u8>,
    /// Header fields in order of appearance
    pub headers: Seq<HttpHeaderView>,
}

/// The mathematical value of an `HttpPacket`.
pub enum HttpPacketView {
    /// A request
    Request(HttpRequestView),
    /// A response
    Response(HttpResponseView),
    /// Opaque traffic recognized as HTTP only by its position
    Any,
}

impl View for HttpHeader {
    type V = HttpHeaderView;

    open spec fn view(&self) -> HttpHeaderView {
        HttpHeaderView { key: self.key@, value: self.value@ }
    }
}

impl View for HttpRequest {
    type V = HttpRequestView;

    open spec fn view(&self) -> HttpRequestView {
        HttpRequestView {
            request_method: self.request_method,
            version: self.version,
            path: self.path@,
            headers: self.headers@.map_values(|h: HttpHeader| h@),
        }
    }
}

impl View for HttpResponse {
    type V = HttpResponseView;

    open spec fn view(&self) -> HttpResponseView {
        HttpResponseView {
            version: self.version,
            code: self.code,
            reason: self.reason@,
            headers: self.headers@.map_values(|h: HttpHeader| h@),
        }
    }
}

impl View for HttpPacket {
    type V = HttpPacketView;

    open spec fn view(&self) -> HttpPacketView {
        match self {
            HttpPacket::Request(r) => HttpPacketView::Request(r@),
            HttpPacket::Response(r) => HttpPacketView::Response(r@),
            HttpPacket::Any => HttpPacketView::Any,
        }
    }
}

impl HttpHeader {
    /// Builds a header field from a pair of key and value octets.
    pub fn from_tuple(tuple: (Vec<u8>, Vec<u8>)) -> (r: HttpHeader)
        ensures
            r@.key == tuple.0@,
            r@.value == tuple.1@,
    {
        HttpHeader { key: tuple.0, value: tuple.1 }
    }
}

/// Whether an octet counts as whitespace between the tokens of the
/// textual grammar: space, horizontal tab, carriage return, line feed.
pub open spec fn is_http_ws(b: u8) -> bool {
    b == 32 || b == 9 || b == 13 || b == 10
}

/// Whether an octet is an ASCII decimal digit.
pub open spec fn is_digit(b: u8) -> bool {
    48 <= b <= 57
}

/// The first offset at or after `i` that does not hold whitespace, or
/// the end of `s`.
pub open spec fn spec_skip_ws(s: Seq<u8>, i: int) -> int
    decreases s.len() - i,
{
    if 0 <= i < s.len() && is_http_ws(s[i]) {
        spec_skip_ws(s, i + 1)
    } else {
        i
    }
}

/// The first offset at or after `i` where `b` stands, if any.
pub open spec fn spec_find(s: Seq<u8>, i: int, b: u8) -> Option<int>
    decreases s.len() - i,
{
    if !(0 <= i < s.len()) {
        None
    } else if s[i] == b {
        Some(i)
    } else {
        spec_find(s, i + 1, b)
    }
}

/// The first offset at or after `i` that does not hold a decimal
/// digit, or the end of `s`.
pub open spec fn spec_digits_end(s: Seq<u8>, i: int) -> int
    decreases s.len() - i,
{
    if 0 <= i < s.len() && is_digit(s[i]) {
        spec_digits_end(s, i + 1)
    } else {
        i
    }
}

/// The decimal value of the digit octets `s[i..j)`.
pub open spec fn spec_digits_value(s: Seq<u8>, i: int, j: int) -> int
    recommends
        forall|k: int| i <= k < j ==> is_digit(s[k]),
    decreases j - i,
{
    if i >= j {
        0
    } else {
        spec_digits_value(s, i, j - 1) * 10 + (s[j - 1] - 48)
    }
}

/// A run of digits has a non-negative decimal value.
proof fn lemma_digits_value_nonneg(s: Seq<u8>, i: int, j: int)
    requires
        forall|k: int| i <= k < j ==> is_digit(s[k]),
    ensures
        spec_digits_value(s, i, j) >= 0,
    decreases j - i,
{
    if i < j {
        lemma_digits_value_nonneg(s, i, j - 1);
    }
}

/// Extending a run of digits to the right never shrinks its value.
proof fn lemma_digits_value_grows(s: Seq<u8>, i: int, k: int, j: int)
    requires
        i <= k <= j,
        forall|m: int| i <= m < j ==> is_digit(s[m]),
    ensures
        spec_digits_value(s, i, j) >= spec_digits_value(s, i, k),
    decreases j - k,
{
    if k < j {
        lemma_digits_value_grows(s, i, k, j - 1);
        lemma_digits_value_nonneg(s, i, j - 1);
    }
}

/// Tests the octet at offset `k` for whitespace.
fn ws_at(input: &[u8], k: usize) -> (r: bool)
    requires
        k < input@.len(),
    ensures
        r == is_http_ws(input@[k as int]),
{
    let b = input[k];
    b == 32 || b == 9 || b == 13 || b == 10
}

/// Tests the octet at offset `k` for a decimal digit.
fn digit_at(input: &[u8], k: usize) -> (r: bool)
    requires
        k < input@.len(),
    ensures
        r == is_digit(input@[k as int]),
{
    let b = input[k];
    48 <= b && b <= 57
}

/// Advances past whitespace.
fn skip_ws(input: &[u8], i: usize) -> (r: usize)
    requires
        i <= input@.len(),
    ensures
        r == spec_skip_ws(input@, i as int),
        i <= r <= input@.len(),
{
    let n = input.len();
    let mut k = i;
    while k < n && ws_at(input, k)
        invariant
            i <= k <= n,
            n == input@.len(),
            spec_skip_ws(input@, i as int) == spec_skip_ws(input@, k as int),
        decreases n - k,
    {
        k = k + 1;
    }
    k
}

/// Scans for the next occurrence of `b`.
fn find_byte(input: &[u8], i: usize, b: u8) -> (r: Option<usize>)
    requires
        i <= input@.len(),
    ensures
        match r {
            Some(j) => i <= j < input@.len() && Some(j as int) == spec_find(input@, i as int, b),
            None => spec_find(input@, i as int, b) is None,
        },
{
    let n = input.len();
    let mut k = i;
    while k < n
        invariant
            i <= k <= n,
            n == input@.len(),
            spec_find(input@, i as int, b) == spec_find(input@, k as int, b),
        decreases n - k,
    {
        if input[k] == b {
            return Some(k);
        }
        k = k + 1;
    }
    None
}

/// Advances past decimal digits.
fn digits_end(input: &[u8], i: usize) -> (r: usize)
    requires
        i <= input@.len(),
    ensures
        r == spec_digits_end(input@, i as int),
        i <= r <= input@.len(),
        forall|k: int| i <= k < r ==> is_digit(input@[k]),
{
    let n = input.len();
    let mut k = i;
    while k < n && digit_at(input, k)
        invariant
            i <= k <= n,
            n == input@.len(),
            spec_digits_end(input@, i as int) == spec_digits_end(input@, k as int),
            forall|m: int| i <= m < k ==> is_digit(input@[m]),
        decreases n - k,
    {
        k = k + 1;
    }
    k
}

/// Reads the decimal value of the digit octets `input[i..j)`, bounded
/// by the largest status code the grammar can carry; a larger value is
/// reported as `None`.
fn parse_decimal(input: &[u8], i: usize, j: usize) -> (r: Option<u32>)
    requires
        i <= j <= input@.len(),
        forall|k: int| i <= k < j ==> is_digit(input@[k]),
    ensures
        match r {
            Some(v) => v <= 0xFFFF && v == spec_digits_value(input@, i as int, j as int),
            None => spec_digits_value(input@, i as int, j as int) > 0xFFFF,
        },
{
    let mut acc: u32 = 0;
    let mut k = i;
    while k < j
        invariant
            i <= k <= j <= input@.len(),
            forall|m: int| i <= m < j ==> is_digit(input@[m]),
            acc <= 0xFFFF,
            acc == spec_digits_value(input@, i as int, k as int),
        decreases j - k,
    {
        let d = input[k] - 48;
        acc = acc * 10 + d as u32;
        k = k + 1;
        if acc > 0xFFFF {
            proof {
                lemma_digits_value_grows(input@, i as int, k as int, j as int);
            }
            return None;
        }
    }
    Some(acc)
}

/// The keyword octets of a request method.
pub open spec fn spec_method_literal(m: HttpRequestMethod) -> Seq<u8> {
    match m {
        HttpRequestMethod::Get => seq![71u8, 69u8, 84u8],
        HttpRequestMethod::Post => seq![80u8, 79u8, 83u8, 84u8],
        HttpRequestMethod::Head => seq![72u8, 69u8, 65u8, 68u8],
        HttpRequestMethod::Put => seq![80u8, 85u8, 84u8],
        HttpRequestMethod::Delete => seq![68u8, 69u8, 76u8, 69u8, 84u8, 69u8],
        HttpRequestMethod::Trace => seq![84u8, 82u8, 65u8, 67u8, 69u8],
        HttpRequestMethod::Options => seq![79u8, 80u8, 84u8, 73u8, 79u8, 78u8, 83u8],
        HttpRequestMethod::Connect => seq![67u8, 79u8, 78u8, 78u8, 69u8, 67u8, 84u8],
        HttpRequestMethod::Patch => seq![80u8, 65u8, 84u8, 67u8, 72u8],
    }
}

/// The outcome of matching the method keyword at the start of a
/// request line.
#[derive(Debug, Clone, Copy, PartialEq, Eq, Structural)]
pub enum MethodMatch {
    /// A keyword matched: the method and the length of its literal.
    Found(HttpRequestMethod, usize),
    /// The input ran out while still agreeing with a keyword.
    Incomplete,
    /// No keyword matches.
    NoMatch,
}

/// The result of trying one method literal, with `otherwise` as the
/// outcome that stands if this literal is contradicted.
pub open spec fn spec_try_method(
    s: Seq<u8>,
    i: int,
    m: HttpRequestMethod,
    otherwise: MethodMatch,
) -> MethodMatch {
    match spec_tag_compare(s, i, spec_method_literal(m)) {
        CompareResult::Matched => MethodMatch::Found(m, spec_method_literal(m).len() as usize),
        CompareResult::Incomplete => MethodMatch::Incomplete,
        CompareResult::Mismatch => otherwise,
    }
}

/// The method keyword recognized at offset `i`, trying the literals in
/// their fixed registration order.
pub open spec fn spec_match_method(s: Seq<u8>, i: int) -> MethodMatch {
    spec_try_method(
        s,
        i,
        HttpRequestMethod::Get,
        spec_try_method(
            s,
            i,
            HttpRequestMethod::Post,
            spec_try_method(
                s,
                i,
                HttpRequestMethod::Head,
                spec_try_method(
                    s,
                    i,
                    HttpRequestMethod::Put,
                    spec_try_method(
                        s,
                        i,
                        HttpRequestMethod::Delete,
                        spec_try_method(
                            s,
                            i,
                            HttpRequestMethod::Trace,
                            spec_try_method(
                                s,
                                i,
                                HttpRequestMethod::Options,
                                spec_try_method(
                                    s,
                                    i,
                                    HttpRequestMethod::Connect,
                                    spec_try_method(
                                        s,
                                        i,
                                        HttpRequestMethod::Patch,
                                        MethodMatch::NoMatch,
                                    ),
                                ),
                            ),
                        ),
                    ),
                ),
            ),
        ),
    )
}

/// Tries one method literal against the input.
fn try_method(input: &[u8], i: usize, tag: Vec<u8>, m: HttpRequestMethod) -> (r: Option<
    MethodMatch,
>)
    requires
        i <= input@.len(),
        tag@ == spec_method_literal(m),
    ensures
        match r {
            Some(mm) => forall|otherwise: MethodMatch|
                spec_try_method(input@, i as int, m, otherwise) == mm,
            None => forall|otherwise: MethodMatch|
                spec_try_method(input@, i as int, m, otherwise) == otherwise,
        },
        r matches Some(MethodMatch::Found(fm, l)) ==> fm == m && l == spec_method_literal(m).len()
            && i + l <= input@.len(),
{
    match tag_compare(input, i, tag.as_slice()) {
        CompareResult::Matched => {
            proof {
                crate::memcmp::lemma_tag_compare_matched(input@, i as int, tag@);
            }
            Some(MethodMatch::Found(m, tag.len()))
        },
        CompareResult::Incomplete => Some(MethodMatch::Incomplete),
        CompareResult::Mismatch => None,
    }
}

/// Matches the method keyword at offset `i`, trying the literals in
/// their fixed registration order.
fn match_method(input: &[u8], i: usize) -> (r: MethodMatch)
    requires
        i <= input@.len(),
    ensures
        r == spec_match_method(input@, i as int),
        r matches MethodMatch::Found(m, l) ==> l == spec_method_literal(m).len() && i + l
            <= input@.len(),
{
    let get_tag: Vec<u8> = vec![71u8, 69u8, 84u8];
    proof {
        assert(get_tag@ =~= spec_method_literal(HttpRequestMethod::Get));
    }
    if let Some(mm) = try_method(input, i, get_tag, HttpRequestMethod::Get) {
        return mm;
    }
    let post_tag: Vec<u8> = vec![80u8, 79u8, 83u8, 84u8];
    proof {
        assert(post_tag@ =~= spec_method_literal(HttpRequestMethod::Post));
    }
    if let Some(mm) = try_method(input, i, post_tag, HttpRequestMethod::Post) {
        return mm;
    }
    let head_tag: Vec<u8> = vec![72u8, 69u8, 65u8, 68u8];
    proof {
        assert(head_tag@ =~= spec_method_literal(HttpRequestMethod::Head));
    }
    if let Some(mm) = try_method(input, i, head_tag, HttpRequestMethod::Head) {
        return mm;
    }
    let put_tag: Vec<u8> = vec![80u8, 85u8, 84u8];
    proof {
        assert(put_tag@ =~= spec_method_literal(HttpRequestMethod::Put));
    }
    if let Some(mm) = try_method(input, i, put_tag, HttpRequestMethod::Put) {
        return mm;
    }
    let delete_tag: Vec<u8> = vec![68u8, 69u8, 76u8, 69u8, 84u8, 69u8];
    proof {
        assert(delete_tag@ =~= spec_method_literal(HttpRequestMethod::Delete));
    }
    if let Some(mm) = try_method(input, i, delete_tag, HttpRequestMethod::Delete) {
        return mm;
    }
    let trace_tag: Vec<u8> = vec![84u8, 82u8, 65u8, 67u8, 69u8];
    proof {
        assert(trace_tag@ =~= spec_method_literal(HttpRequestMethod::Trace));
    }
    if let Some(mm) = try_method(input, i, trace_tag, HttpRequestMethod::Trace) {
        return mm;
    }
    let options_tag: Vec<u8> = vec![79u8, 80u8, 84u8, 73u8, 79u8, 78u8, 83u8];
    proof {
        assert(options_tag@ =~= spec_method_literal(HttpRequestMethod::Options));
    }
    if let Some(mm) = try_method(input, i, options_tag, HttpRequestMethod::Options) {
        return mm;
    }
    let connect_tag: Vec<u8> = vec![67u8, 79u8, 78u8, 78u8, 69u8, 67u8, 84u8];
    proof {
        assert(connect_tag@ =~= spec_method_literal(HttpRequestMethod::Connect));
    }
    if let Some(mm) = try_method(input, i, connect_tag, HttpRequestMethod::Connect) {
        return mm;
    }
    let patch_tag: Vec<u8> = vec![80u8, 65u8, 84u8, 67u8, 72u8];
    proof {
        assert(patch_tag@ =~= spec_method_literal(HttpRequestMethod::Patch));
    }
    if let Some(mm) = try_method(input, i, patch_tag, HttpRequestMethod::Patch) {
        return mm;
    }
    MethodMatch::NoMatch
}

/// The outcome of reading a `<digits>.<digits>` version token.
pub enum VersionOutcome {
    /// The version and the offset just past its last digit.
    Parsed(HttpVersion, int),
    /// The input ran out inside the token.
    Incomplete,
    /// The token is malformed at the given offset: a missing or
    /// non-numeric part, a part too large for its field, or a missing
    /// dot.
    Invalid(int),
}

/// The version token read at offset `i`: one or more digits, a dot,
/// one or more digits, each part small enough for an 8-bit field.
pub open spec fn spec_parse_version(s: Seq<u8>, i: int) -> VersionOutcome {
    let d1 = spec_digits_end(s, i);
    if d1 == i {
        if i >= s.len() {
            VersionOutcome::Incomplete
        } else {
            VersionOutcome::Invalid(i)
        }
    } else if spec_digits_value(s, i, d1) > 255 {
        VersionOutcome::Invalid(i)
    } else if d1 >= s.len() {
        VersionOutcome::Incomplete
    } else if s[d1] != 46 {
        VersionOutcome::Invalid(d1)
    } else {
        let i2 = d1 + 1;
        let d2 = spec_digits_end(s, i2);
        if d2 == i2 {
            if i2 >= s.len() {
                VersionOutcome::Incomplete
            } else {
                VersionOutcome::Invalid(i2)
            }
        } else if spec_digits_value(s, i2, d2) > 255 {
            VersionOutcome::Invalid(i2)
        } else {
            VersionOutcome::Parsed(
                HttpVersion {
                    major: spec_digits_value(s, i, d1) as u8,
                    minor: spec_digits_value(s, i2, d2) as u8,
                },
                d2,
            )
        }
    }
}

/// The executable counterpart of a [`VersionOutcome`].
enum VersionParse {
    /// The version and the offset just past its last digit.
    Parsed(HttpVersion, usize),
    /// The input ran out inside the token.
    Incomplete,
    /// The token is malformed at the given offset.
    Invalid(usize),
}

impl View for VersionParse {
    type V = VersionOutcome;

    closed spec fn view(&self) -> VersionOutcome {
        match self {
            VersionParse::Parsed(v, end) => VersionOutcome::Parsed(*v, *end as int),
            VersionParse::Incomplete => VersionOutcome::Incomplete,
            VersionParse::Invalid(at) => VersionOutcome::Invalid(*at as int),
        }
    }
}

/// Reads the `<digits>.<digits>` version token at offset `i`.
fn parse_version(input: &[u8], i: usize) -> (r: VersionParse)
    requires
        i <= input@.len(),
    ensures
        r@ == spec_parse_version(input@, i as int),
        r matches VersionParse::Parsed(_, end) ==> i <= end <= input@.len(),
{
    let n = input.len();
    let d1 = digits_end(input, i);
    if d1 == i {
        if i >= n {
            return VersionParse::Incomplete;
        } else {
            return VersionParse::Invalid(i);
        }
    }
    let major = match parse_decimal(input, i, d1) {
        Some(v) => {
            if v > 255 {
                return VersionParse::Invalid(i);
            }
            v as u8
        },
        None => {
            return VersionParse::Invalid(i);
        },
    };
    if d1 >= n {
        return VersionParse::Incomplete;
    }
    if input[d1] != 46 {
        return VersionParse::Invalid(d1);
    }
    let i2 = d1 + 1;
    let d2 = digits_end(input, i2);
    if d2 == i2 {
        if i2 >= n {
            return VersionParse::Incomplete;
        } else {
            return VersionParse::Invalid(i2);
        }
    }
    let minor = match parse_decimal(input, i2, d2) {
        Some(v) => {
            if v > 255 {
                return VersionParse::Invalid(i2);
            }
            v as u8
        },
        None => {
            return VersionParse::Invalid(i2);
        },
    };
    VersionParse::Parsed(HttpVersion { major, minor }, d2)
}

/// The octets of the blank line that terminates the header block.
pub open spec fn spec_crlfcrlf() -> Seq<u8> {
    seq![13u8, 10u8, 13u8, 10u8]
}

/// The octets that separate a header key from its value.
pub open spec fn spec_colon_space() -> Seq<u8> {
    seq![58u8, 32u8]
}

/// The outcome of reading the header block.
pub enum HeadersOutcome {
    /// The header fields in order, and the offset just past the
    /// terminating blank line.
    Parsed(Seq<HttpHeaderView>, int),
    /// The input ran out inside the block.
    Incomplete,
    /// A header line is malformed at the given offset: its key is not
    /// followed by a colon and a space.
    Invalid(int),
}

/// The header block read at offset `i`: zero or more
/// `"<key>: <value>\r\n"` lines terminated by a blank line, with
/// whitespace before each key tolerated.
pub open spec fn spec_parse_headers(s: Seq<u8>, i: int) -> HeadersOutcome
    decreases s.len() - i,
{
    match spec_tag_compare(s, i, spec_crlfcrlf()) {
        CompareResult::Matched => HeadersOutcome::Parsed(seq![], i + 4),
        CompareResult::Incomplete => HeadersOutcome::Incomplete,
        CompareResult::Mismatch => {
            let k = spec_skip_ws(s, i);
            match spec_find(s, k, 58) {
                None => HeadersOutcome::Incomplete,
                Some(c) => match spec_tag_compare(s, c, spec_colon_space()) {
                    CompareResult::Incomplete => HeadersOutcome::Incomplete,
                    CompareResult::Mismatch => HeadersOutcome::Invalid(c),
                    CompareResult::Matched => match spec_find(s, c + 2, 13) {
                        None => HeadersOutcome::Incomplete,
                        Some(e) => if i < e && e <= s.len() {
                            match spec_parse_headers(s, e) {
                                HeadersOutcome::Parsed(rest, end) => HeadersOutcome::Parsed(
                                    seq![
                                        HttpHeaderView {
                                            key: s.subrange(k, c),
                                            value: s.subrange(c + 2, e),
                                        },
                                    ] + rest,
                                    end,
                                ),
                                o => o,
                            }
                        } else {
                            HeadersOutcome::Incomplete
                        },
                    },
                },
            }
        },
    }
}

/// The executable counterpart of a [`HeadersOutcome`].
enum HeadersParse {
    /// The header fields and the offset just past the blank line.
    Parsed(Vec<HttpHeader>, usize),
    /// The input ran out inside the block.
    Incomplete,
    /// A header line is malformed at the given offset.
    Invalid(usize),
}

impl View for HeadersParse {
    type V = HeadersOutcome;

    closed spec fn view(&self) -> HeadersOutcome {
        match self {
            HeadersParse::Parsed(hs, end) => HeadersOutcome::Parsed(
                hs@.map_values(|h: HttpHeader| h@),
                *end as int,
            ),
            HeadersParse::Incomplete => HeadersOutcome::Incomplete,
            HeadersParse::Invalid(at) => HeadersOutcome::Invalid(*at as int),
        }
    }
}

/// Reads the header block at offset `i`.
fn parse_headers(input: &[u8], i: usize) -> (r: HeadersParse)
    requires
        i <= input@.len(),
    ensures
        r@ == spec_parse_headers(input@, i as int),
        r matches HeadersParse::Parsed(_, end) ==> i <= end <= input@.len(),
{
    let n = input.len();
    let crlfcrlf: Vec<u8> = vec![13u8, 10u8, 13u8, 10u8];
    proof {
        assert(crlfcrlf@ =~= spec_crlfcrlf());
    }
    let colon_space: Vec<u8> = vec![58u8, 32u8];
    proof {
        assert(colon_space@ =~= spec_colon_space());
    }
    let mut acc: Vec<HttpHeader> = Vec::new();
    let mut pos = i;
    loop
        invariant
            i <= pos <= n,
            n == input@.len(),
            crlfcrlf@ == spec_crlfcrlf(),
            colon_space@ == spec_colon_space(),
            spec_parse_headers(input@, i as int) == (match spec_parse_headers(
                input@,
                pos as int,
            ) {
                HeadersOutcome::Parsed(rest, end) => HeadersOutcome::Parsed(
                    acc@.map_values(|h: HttpHeader| h@) + rest,
                    end,
                ),
                o => o,
            }),
        decreases n - pos,
    {
        match tag_compare(input, pos, crlfcrlf.as_slice()) {
            CompareResult::Matched => {
                proof {
                    crate::memcmp::lemma_tag_compare_matched(input@, pos as int, spec_crlfcrlf());
                    assert(acc@.map_values(|h: HttpHeader| h@) + Seq::<HttpHeaderView>::empty()
                        =~= acc@.map_values(|h: HttpHeader| h@));
                }
                return HeadersParse::Parsed(acc, pos + 4);
            },
            CompareResult::Incomplete => {
                return HeadersParse::Incomplete;
            },
            CompareResult::Mismatch => {},
        }
        let k = skip_ws(input, pos);
        let c = match find_byte(input, k, 58) {
            None => {
                return HeadersParse::Incomplete;
            },
            Some(c) => c,
        };
        match tag_compare(input, c, colon_space.as_slice()) {
            CompareResult::Incomplete => {
                return HeadersParse::Incomplete;
            },
            CompareResult::Mismatch => {
                return HeadersParse::Invalid(c);
            },
            CompareResult::Matched => {},
        }
        proof {
            crate::memcmp::lemma_tag_compare_matched(input@, c as int, spec_colon_space());
        }
        let e = match find_byte(input, c + 2, 13) {
            None => {
                return HeadersParse::Incomplete;
            },
            Some(e) => e,
        };
        let hdr = HttpHeader {
            key: slice_to_vec(slice_subrange(input, k, c)),
            value: slice_to_vec(slice_subrange(input, c + 2, e)),
        };
        let ghost acc_old = acc@.map_values(|h: HttpHeader| h@);
        let ghost hv = HttpHeaderView {
            key: input@.subrange(k as int, c as int),
            value: input@.subrange(c + 2, e as int),
        };
        proof {
            assert(hdr@ == hv);
        }
        acc.push(hdr);
        proof {
            assert(acc@.map_values(|h: HttpHeader| h@) =~= acc_old.push(hv));
            match spec_parse_headers(input@, e as int) {
                HeadersOutcome::Parsed(rest, end) => {
                    assert(acc_old + (seq![hv] + rest) =~= acc_old.push(hv) + rest);
                },
                _ => {},
            }
        }
        pos = e;
    }
}

/// The octets of the literal protocol prefix "HTTP/".
pub open spec fn spec_http_tag() -> Seq<u8> {
    seq![72u8, 84u8, 84u8, 80u8, 47u8]
}

/// The decode outcome that the request grammar owes for `s`: optional
/// whitespace, a method keyword, the path up to the next space, the
/// literal "HTTP/" with a version, then the header block.
pub open spec fn spec_parse_request(s: Seq<u8>) -> DecodeOutcomeView {
    let m = spec_skip_ws(s, 0);
    match spec_match_method(s, m) {
        MethodMatch::Incomplete => DecodeOutcomeView::NeedMoreData(Needed::Unknown),
        MethodMatch::NoMatch => DecodeOutcomeView::Invalid(InvalidKind::UnknownCode, m as usize),
        MethodMatch::Found(method, mlen) => {
            let p0 = spec_skip_ws(s, m + mlen);
            match spec_find(s, p0, 32) {
                None => DecodeOutcomeView::NeedMoreData(Needed::Unknown),
                Some(pe) => {
                    let h0 = spec_skip_ws(s, pe);
                    match spec_tag_compare(s, h0, spec_http_tag()) {
                        CompareResult::Incomplete => DecodeOutcomeView::NeedMoreData(
                            Needed::Unknown,
                        ),
                        CompareResult::Mismatch => DecodeOutcomeView::Invalid(
                            InvalidKind::TagMismatch,
                            h0 as usize,
                        ),
                        CompareResult::Matched => match spec_parse_version(s, h0 + 5) {
                            VersionOutcome::Incomplete => DecodeOutcomeView::NeedMoreData(
                                Needed::Unknown,
                            ),
                            VersionOutcome::Invalid(at) => DecodeOutcomeView::Invalid(
                                InvalidKind::MalformedText,
                                at as usize,
                            ),
                            VersionOutcome::Parsed(version, vend) => match spec_parse_headers(
                                s,
                                vend,
                            ) {
                                HeadersOutcome::Incomplete => DecodeOutcomeView::NeedMoreData(
                                    Needed::Unknown,
                                ),
                                HeadersOutcome::Invalid(at) => DecodeOutcomeView::Invalid(
                                    InvalidKind::MalformedText,
                                    at as usize,
                                ),
                                HeadersOutcome::Parsed(headers, end) => DecodeOutcomeView::Decoded(
                                    LayerView::Http(
                                        HttpPacketView::Request(
                                            HttpRequestView {
                                                request_method: method,
                                                version,
                                                path: s.subrange(p0, pe),
                                                headers,
                                            },
                                        ),
                                    ),
                                    end as usize,
                                    ParserState::Stop,
                                ),
                            },
                        },
                    }
                },
            }
        },
    }
}

/// The decode outcome that the response grammar owes for `s`: optional
/// whitespace, the literal "HTTP/" with a version, a numeric status
/// code up to the next space, the reason phrase up to the next
/// carriage return, then the header block.
pub open spec fn spec_parse_response(s: Seq<u8>) -> DecodeOutcomeView {
    let h0 = spec_skip_ws(s, 0);
    match spec_tag_compare(s, h0, spec_http_tag()) {
        CompareResult::Incomplete => DecodeOutcomeView::NeedMoreData(Needed::Unknown),
        CompareResult::Mismatch => DecodeOutcomeView::Invalid(
            InvalidKind::TagMismatch,
            h0 as usize,
        ),
        CompareResult::Matched => match spec_parse_version(s, h0 + 5) {
            VersionOutcome::Incomplete => DecodeOutcomeView::NeedMoreData(Needed::Unknown),
            VersionOutcome::Invalid(at) => DecodeOutcomeView::Invalid(
                InvalidKind::MalformedText,
                at as usize,
            ),
            VersionOutcome::Parsed(version, vend) => {
                let c0 = spec_skip_ws(s, vend);
                match spec_find(s, c0, 32) {
                    None => DecodeOutcomeView::NeedMoreData(Needed::Unknown),
                    Some(ce) => {
                        if spec_digits_end(s, c0) != ce {
                            DecodeOutcomeView::Invalid(InvalidKind::MalformedText, c0 as usize)
                        } else if spec_digits_value(s, c0, ce) > 0xFFFF {
                            DecodeOutcomeView::Invalid(InvalidKind::MalformedText, c0 as usize)
                        } else {
                            let r0 = spec_skip_ws(s, ce);
                            match spec_find(s, r0, 13) {
                                None => DecodeOutcomeView::NeedMoreData(Needed::Unknown),
                                Some(re) => match spec_parse_headers(s, re) {
                                    HeadersOutcome::Incomplete => DecodeOutcomeView::NeedMoreData(
                                        Needed::Unknown,
                                    ),
                                    HeadersOutcome::Invalid(at) => DecodeOutcomeView::Invalid(
                                        InvalidKind::MalformedText,
                                        at as usize,
                                    ),
                                    HeadersOutcome::Parsed(
                                        headers,
                                        end,
                                    ) => DecodeOutcomeView::Decoded(
                                        LayerView::Http(
                                            HttpPacketView::Response(
                                                HttpResponseView {
                                                    version,
                                                    code: spec_digits_value(s, c0, ce) as u16,
                                                    reason: s.subrange(r0, re),
                                                    headers,
                                                },
                                            ),
                                        ),
                                        end as usize,
                                        ParserState::Stop,
                                    ),
                                },
                            }
                        }
                    },
                }
            },
        },
    }
}

/// The decode outcome that the plaintext grammar owes for `s`: the
/// request grammar is tried first; only if it refuses the content does
/// the response grammar judge the input.
pub open spec fn spec_parse_plain(s: Seq<u8>) -> DecodeOutcomeView {
    match spec_parse_request(s) {
        DecodeOutcomeView::Invalid(_, _) => spec_parse_response(s),
        o => o,
    }
}

/// Whether the stack decoded so far selects the plaintext grammar: no
/// stack (standalone mode), or a TCP header as the last decoded layer.
pub open spec fn spec_http_plain_mode(prior: Option<Seq<LayerView>>) -> bool {
    match prior {
        None => true,
        Some(stack) => stack.len() > 0 && (stack[stack.len() - 1] matches LayerView::Tcp(_)),
    }
}

/// The decode outcome owed for traffic atop TLS: when the record sits
/// on a TCP connection with port 443 on either side, the input is
/// recognized as opaque HTTP application data without consuming any
/// octets; any other position is a parent mismatch.
pub open spec fn spec_parse_encrypted(prior: Option<Seq<LayerView>>) -> DecodeOutcomeView {
    match prior {
        None => DecodeOutcomeView::Invalid(InvalidKind::ParentMismatch, 0),
        Some(stack) => if stack.len() >= 2 {
            match (stack[stack.len() - 1], stack[stack.len() - 2]) {
                (LayerView::Tls(_), LayerView::Tcp(t)) => if t.header.source_port == 443
                    || t.header.dest_port == 443 {
                    DecodeOutcomeView::Decoded(
                        LayerView::Http(HttpPacketView::Any),
                        0,
                        ParserState::Stop,
                    )
                } else {
                    DecodeOutcomeView::Invalid(InvalidKind::ParentMismatch, 0)
                },
                _ => DecodeOutcomeView::Invalid(InvalidKind::ParentMismatch, 0),
            }
        } else {
            DecodeOutcomeView::Invalid(InvalidKind::ParentMismatch, 0)
        },
    }
}

/// The decode outcome that the HTTP decoding unit owes for `s` atop
/// the given stack: the plaintext grammar atop TCP or standalone, the
/// opaque recognition atop TLS.
pub open spec fn spec_parse_http(s: Seq<u8>, prior: Option<Seq<LayerView>>) -> DecodeOutcomeView {
    if spec_http_plain_mode(prior) {
        spec_parse_plain(s)
    } else {
        spec_parse_encrypted(prior)
    }
}

/// Every method keyword outside the recognized set is refused at the
/// byte offset where the method token starts.
pub proof fn lemma_http_unknown_method(s: Seq<u8>)
    requires
        spec_match_method(s, spec_skip_ws(s, 0)) == MethodMatch::NoMatch,
    ensures
        spec_parse_request(s) == DecodeOutcomeView::Invalid(
            InvalidKind::UnknownCode,
            spec_skip_ws(s, 0) as usize,
        ),
{
}

/// Parent validation for HTTP: without a stack the check is skipped
/// and the plaintext grammar judges the input on its own; atop a TCP
/// header the outcome is that of standalone decoding, whatever stands
/// deeper in the stack; and a last element that is neither TCP nor TLS
/// is refused whatever the payload.  Atop TLS the verdict also
/// consults the layer beneath the record, so it is the one position
/// check that reaches deeper than the last element.
pub proof fn lemma_http_parent_validation(s: Seq<u8>, stack: Seq<LayerView>)
    requires
        stack.len() > 0,
    ensures
        (stack[stack.len() - 1] matches LayerView::Tcp(_)) ==> spec_parse_http(s, Some(stack))
            == spec_parse_http(s, None),
        !(stack[stack.len() - 1] matches LayerView::Tcp(_)) && !(stack[stack.len() - 1]
            matches LayerView::Tls(_)) ==> spec_parse_http(s, Some(stack))
            == DecodeOutcomeView::Invalid(InvalidKind::ParentMismatch, 0),
{
}

/// Decodes a plaintext HTTP request from the start of `input`.
fn parse_request(input: &[u8]) -> (r: DecodeOutcome)
    ensures
        r@ == spec_parse_request(input@),
        r matches DecodeOutcome::Decoded(_, c, _) ==> c <= input@.len(),
{
    let n = input.len();
    let m = skip_ws(input, 0);
    let (method, mlen) = match match_method(input, m) {
        MethodMatch::Incomplete => {
            return DecodeOutcome::NeedMoreData(Needed::Unknown);
        },
        MethodMatch::NoMatch => {
            return DecodeOutcome::Invalid(InvalidKind::UnknownCode, m);
        },
        MethodMatch::Found(method, mlen) => (method, mlen),
    };
    assert(m + mlen <= n);
    let p0 = skip_ws(input, m + mlen);
    let pe = match find_byte(input, p0, 32) {
        None => {
            return DecodeOutcome::NeedMoreData(Needed::Unknown);
        },
        Some(pe) => pe,
    };
    let h0 = skip_ws(input, pe);
    let http_tag: Vec<u8> = vec![72u8, 84u8, 84u8, 80u8, 47u8];
    proof {
        assert(http_tag@ =~= spec_http_tag());
    }
    match tag_compare(input, h0, http_tag.as_slice()) {
        CompareResult::Incomplete => {
            return DecodeOutcome::NeedMoreData(Needed::Unknown);
        },
        CompareResult::Mismatch => {
            return DecodeOutcome::Invalid(InvalidKind::TagMismatch, h0);
        },
        CompareResult::Matched => {},
    }
    proof {
        crate::memcmp::lemma_tag_compare_matched(input@, h0 as int, spec_http_tag());
    }
    assert(h0 + 5 <= n);
    let (version, vend) = match parse_version(input, h0 + 5) {
        VersionParse::Incomplete => {
            return DecodeOutcome::NeedMoreData(Needed::Unknown);
        },
        VersionParse::Invalid(at) => {
            return DecodeOutcome::Invalid(InvalidKind::MalformedText, at);
        },
        VersionParse::Parsed(version, vend) => (version, vend),
    };
    match parse_headers(input, vend) {
        HeadersParse::Incomplete => DecodeOutcome::NeedMoreData(Needed::Unknown),
        HeadersParse::Invalid(at) => DecodeOutcome::Invalid(InvalidKind::MalformedText, at),
        HeadersParse::Parsed(headers, end) => DecodeOutcome::Decoded(
            Layer::Http(
                HttpPacket::Request(
                    HttpRequest {
                        request_method: method,
                        version,
                        path: slice_to_vec(slice_subrange(input, p0, pe)),
                        headers,
                    },
                ),
            ),
            end,
            ParserState::Stop,
        ),
    }
}

/// Decodes a plaintext HTTP response from the start of `input`.
fn parse_response(input: &[u8]) -> (r: DecodeOutcome)
    ensures
        r@ == spec_parse_response(input@),
        r matches DecodeOutcome::Decoded(_, c, _) ==> c <= input@.len(),
{
    let n = input.len();
    let h0 = skip_ws(input, 0);
    let http_tag: Vec<u8> = vec![72u8, 84u8, 84u8, 80u8, 47u8];
    proof {
        assert(http_tag@ =~= spec_http_tag());
    }
    match tag_compare(input, h0, http_tag.as_slice()) {
        CompareResult::Incomplete => {
            return DecodeOutcome::NeedMoreData(Needed::Unknown);
        },
        CompareResult::Mismatch => {
            return DecodeOutcome::Invalid(InvalidKind::TagMismatch, h0);
        },
        CompareResult::Matched => {},
    }
    proof {
        crate::memcmp::lemma_tag_compare_matched(input@, h0 as int, spec_http_tag());
    }
    assert(h0 + 5 <= n);
    let (version, vend) = match parse_version(input, h0 + 5) {
        VersionParse::Incomplete => {
            return DecodeOutcome::NeedMoreData(Needed::Unknown);
        },
        VersionParse::Invalid(at) => {
            return DecodeOutcome::Invalid(InvalidKind::MalformedText, at);
        },
        VersionParse::Parsed(version, vend) => (version, vend),
    };
    let c0 = skip_ws(input, vend);
    let ce = match find_byte(input, c0, 32) {
        None => {
            return DecodeOutcome::NeedMoreData(Needed::Unknown);
        },
        Some(ce) => ce,
    };
    let de = digits_end(input, c0);
    if de != ce {
        return DecodeOutcome::Invalid(InvalidKind::MalformedText, c0);
    }
    let code = match parse_decimal(input, c0, ce) {
        None => {
            return DecodeOutcome::Invalid(InvalidKind::MalformedText, c0);
        },
        Some(v) => v as u16,
    };
    let r0 = skip_ws(input, ce);
    let re = match find_byte(input, r0, 13) {
        None => {
            return DecodeOutcome::NeedMoreData(Needed::Unknown);
        },
        Some(re) => re,
    };
    match parse_headers(input, re) {
        HeadersParse::Incomplete => DecodeOutcome::NeedMoreData(Needed::Unknown),
        HeadersParse::Invalid(at) => DecodeOutcome::Invalid(InvalidKind::MalformedText, at),
        HeadersParse::Parsed(headers, end) => DecodeOutcome::Decoded(
            Layer::Http(
                HttpPacket::Response(
                    HttpResponse {
                        version,
                        code,
                        reason: slice_to_vec(slice_subrange(input, r0, re)),
                        headers,
                    },
                ),
            ),
            end,
            ParserState::Stop,
        ),
    }
}

/// Decodes a plaintext HTTP packet: a request, or failing its
/// content checks, a response.
fn parse_plain(input: &[u8]) -> (r: DecodeOutcome)
    ensures
        r@ == spec_parse_plain(input@),
        r matches DecodeOutcome::Decoded(_, c, _) ==> c <= input@.len(),
{
    let first = parse_request(input);
    match first {
        DecodeOutcome::Invalid(_, _) => parse_response(input),
        o => o,
    }
}

impl HttpPacket {
    /// Recognizes encrypted HTTP traffic by its position alone: a TLS
    /// record that sits on a TCP connection with port 443 on either
    /// side is reported as an opaque HTTP layer, and no octet of
    /// `input` is consumed.
    pub fn parse_encrypted(_input: &[u8], result: Option<&Vec<Layer>>) -> (r: DecodeOutcome)
        ensures
            r@ == spec_parse_encrypted(prior_view(result)),
            r matches DecodeOutcome::Decoded(_, c, _) ==> c == 0,
    {
        let stack = match result {
            None => {
                return DecodeOutcome::Invalid(InvalidKind::ParentMismatch, 0);
            },
            Some(stack) => stack,
        };
        if stack.len() < 2 {
            return DecodeOutcome::Invalid(InvalidKind::ParentMismatch, 0);
        }
        let on_443: bool = match (&stack[stack.len() - 1], &stack[stack.len() - 2]) {
            (Layer::Tls(_), Layer::Tcp(t)) => t.header.source_port == 443 || t.header.dest_port
                == 443,
            _ => false,
        };
        if on_443 {
            DecodeOutcome::Decoded(Layer::Http(HttpPacket::Any), 0, ParserState::Stop)
        } else {
            DecodeOutcome::Invalid(InvalidKind::ParentMismatch, 0)
        }
    }
}

impl HttpParser {
    /// Decodes an `HttpPacket` from the start of `input`.
    ///
    /// Atop TCP, or standalone with a `prior` of `None`, the plaintext
    /// request and response grammars judge the input.  In any other
    /// position the traffic can only be recognized as encrypted HTTP
    /// atop TLS on port 443.
    pub fn parse(&self, input: &[u8], prior: Option<&Vec<Layer>>) -> (r: DecodeOutcome)
        ensures
            r@ == spec_parse_http(input@, prior_view(prior)),
            r matches DecodeOutcome::Decoded(_, c, _) ==> c <= input@.len(),
    {
        let plain_mode: bool = match prior {
            None => true,
            Some(stack) => {
                if stack.len() == 0 {
                    false
                } else {
                    match &stack[stack.len() - 1] {
                        Layer::Tcp(_) => true,
                        _ => false,
                    }
                }
            },
        };
        if plain_mode {
            parse_plain(input)
        } else {
            HttpPacket::parse_encrypted(input, prior)
        }
    }

    /// The variant tag under which the dispatch engine registers this
    /// decoding unit.
    pub fn variant(&self) -> (r: ParserVariant)
        ensures
            r == ParserVariant::Http(HttpParser),
    {
        ParserVariant::Http(HttpParser)
    }
}

} // verus!
